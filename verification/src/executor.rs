//! The function executor: decode the request, take the observation, encode
//! it, build the callback. One run either yields every call or none.

use crate::abi::{be_word, kinds_of, twos_complement, AbiType, AbiValue};
use crate::address::Address;
use crate::callback::{
    build, is_mismatch, matches_schema, selector_of, signature_text, CallbackCall,
    MethodSignature, SchemaMismatchError,
};
use crate::fixed_point::{encode, encode_spec, EncodingError, FixedPointValue};
use crate::params::{
    decode_request, holds_order_query, is_decoding_of, DecodePolicy, DecodedParameters,
    ParameterDecodeError, ParameterSchema,
};
use crate::source::{DeribitRespnseInner, DeribitResponse};
use vstd::prelude::*;
use vstd::string::*;

verus! {

/// What is fixed for a deployment of the function.
#[derive(Clone, Debug, PartialEq, Eq)]
pub struct FunctionConfig {
    pub receiver: Address,
    pub method: MethodSignature,
    pub scale: u8,
    pub schema: ParameterSchema,
    pub policy: DecodePolicy,
}

/// The count of fractional digits that the receiver stores.
pub const RESULT_SCALE: u8 = 8;

/// Why a run yields no calls.
#[derive(Clone, Copy, Debug, PartialEq, Eq)]
pub enum FunctionError {
    /// The request does not hold the declared parameters.
    ParameterDecode,
    /// The external source gave no observation.
    Fetch,
    /// The observed value has no fixed-point form.
    Encoding(EncodingError),
    /// The receiver's method does not take a value and a time.
    SchemaMismatch(SchemaMismatchError),
}

/// Where a run stands.
#[derive(Clone, Debug, PartialEq, Eq)]
pub enum ExecutionState {
    Decoding,
    Fetching { parameters: DecodedParameters },
    Encoding { observation: DeribitRespnseInner },
    Building { value: FixedPointValue, timestamp: u64 },
    Done { calls: Vec<CallbackCall> },
    Failed { error: FunctionError },
}

/// What has happened since the last step.
#[derive(Clone, Debug, PartialEq, Eq)]
pub enum Event {
    /// The request has arrived.
    Request { data: Vec<u8> },
    /// The external source has answered.
    Fetched { response: DeribitResponse },
    /// The external source could not be reached, or its answer not read.
    FetchFailed,
    /// Nothing: the last step asked to go on.
    Proceed,
}

/// What the caller is to do before the next step.
#[derive(Clone, Copy, Debug, PartialEq, Eq)]
pub enum Action {
    /// Hand in the request.
    AwaitRequest,
    /// Ask the external source, and hand in its answer or its failure.
    Fetch,
    /// Step again.
    Proceed,
    /// Emit the calls: the run is done.
    Emit,
    /// Give up: the run has failed.
    Abort,
}

/// Whether a request is refused under `config`.
pub open spec fn refuses_request(config: FunctionConfig, data: Seq<u8>) -> bool {
    &&& config.schema == ParameterSchema::OrderQuery
    &&& config.policy == DecodePolicy::Strict
    &&& !holds_order_query(data)
}

/// Whether a method takes what the function reports: a signed value, then
/// an unsigned time.
pub open spec fn takes_value_and_time(method: MethodSignature) -> bool {
    method.inputs@ =~= seq![AbiType::Int256, AbiType::Uint256]
}

/// Whether `e` says how a value and a time fail the declared types of a
/// method.
pub open spec fn is_report_mismatch(method: MethodSignature, e: SchemaMismatchError) -> bool {
    is_mismatch(method.inputs@, seq![AbiType::Int256, AbiType::Uint256], e)
}

/// Whether `call` reports `value` as observed at `timestamp` to the
/// receiver's method.
pub open spec fn reports(
    call: CallbackCall,
    config: FunctionConfig,
    value: FixedPointValue,
    timestamp: u64,
) -> bool {
    &&& call.target == config.receiver
    &&& call.selector@ == selector_of(signature_text(config.method.name@, config.method.inputs@))
    &&& call.args@.len() == 2
    &&& call.args@[0] matches AbiValue::Int256(w) && w@ == be_word(
        twos_complement(value.mantissa as int),
    )
    &&& call.args@[1] matches AbiValue::Uint256(w) && w@ == be_word(timestamp as int)
}

/// Whether `calls` are all that a run owes for `value` at `timestamp`: the
/// one call that reports them.
pub open spec fn is_report(
    calls: Seq<CallbackCall>,
    config: FunctionConfig,
    value: FixedPointValue,
    timestamp: u64,
) -> bool {
    calls.len() == 1 && reports(calls[0], config, value, timestamp)
}

impl FunctionError {
    /// The code under which the failure is reported: never zero, which
    /// stands for success. A failed fetch has a code of its own; the others
    /// are failures to read or write a value.
    pub fn code(&self) -> (r: u8)
        ensures
            r == match *self {
                FunctionError::Fetch => 2u8,
                _ => 1u8,
            },
            r != 0,
    {
        match self {
            FunctionError::Fetch => 2,
            _ => 1,
        }
    }
}

impl FunctionConfig {
    /// The deployment that reports to `callback(int256,uint256)` on
    /// `receiver` with eight fractional digits, and takes no parameters.
    pub fn for_receiver(receiver: Address) -> (r: FunctionConfig)
        ensures
            r.receiver == receiver,
            r.method.name@ == "callback"@,
            takes_value_and_time(r.method),
            r.scale == RESULT_SCALE,
            r.schema == ParameterSchema::NoParameters,
            r.policy == DecodePolicy::ZeroOnError,
    {
        let mut inputs: Vec<AbiType> = Vec::new();
        inputs.push(AbiType::Int256);
        inputs.push(AbiType::Uint256);
        FunctionConfig {
            receiver,
            method: MethodSignature { name: String::from_str("callback"), inputs },
            scale: RESULT_SCALE,
            schema: ParameterSchema::NoParameters,
            policy: DecodePolicy::ZeroOnError,
        }
    }
}

impl ExecutionState {
    /// Whether the run has ended, with calls or with an error.
    pub open spec fn is_terminal(self) -> bool {
        self is Done || self is Failed
    }

    /// What the caller is to do in this state.
    pub fn action(&self) -> (r: Action)
        ensures
            r == match *self {
                ExecutionState::Decoding => Action::AwaitRequest,
                ExecutionState::Fetching { .. } => Action::Fetch,
                ExecutionState::Encoding { .. } => Action::Proceed,
                ExecutionState::Building { .. } => Action::Proceed,
                ExecutionState::Done { .. } => Action::Emit,
                ExecutionState::Failed { .. } => Action::Abort,
            },
    {
        match self {
            ExecutionState::Decoding => Action::AwaitRequest,
            ExecutionState::Fetching { .. } => Action::Fetch,
            ExecutionState::Encoding { .. } => Action::Proceed,
            ExecutionState::Building { .. } => Action::Proceed,
            ExecutionState::Done { .. } => Action::Emit,
            ExecutionState::Failed { .. } => Action::Abort,
        }
    }
}

/// Builds the calls that report `value` as observed at `timestamp`.
pub fn report(config: &FunctionConfig, value: FixedPointValue, timestamp: u64) -> (r: Result<
    Vec<CallbackCall>,
    SchemaMismatchError,
>)
    ensures
        takes_value_and_time(config.method) <==> r is Ok,
        r matches Ok(calls) ==> is_report(calls@, *config, value, timestamp),
        r matches Err(e) ==> is_report_mismatch(config.method, e),
{
    let mut args: Vec<AbiValue> = Vec::new();
    args.push(AbiValue::signed(value.mantissa));
    args.push(AbiValue::unsigned(timestamp));
    let ghost given = args@;
    match build(config.receiver, &config.method, args) {
        Ok(call) => {
            assert(matches_schema(config.method.inputs@, given));
            assert(config.method.inputs@ =~= seq![AbiType::Int256, AbiType::Uint256]) by {
                assert(given[0] is Int256);
                assert(given[1] is Uint256);
            }
            let mut calls: Vec<CallbackCall> = Vec::new();
            calls.push(call);
            Ok(calls)
        },
        Err(e) => {
            assert(kinds_of(given) =~= seq![AbiType::Int256, AbiType::Uint256]);
            assert(!takes_value_and_time(config.method)) by {
                if takes_value_and_time(config.method) {
                    assert(given[0] is Int256);
                    assert(given[1] is Uint256);
                    assert(matches_schema(config.method.inputs@, given));
                }
            }
            Err(e)
        },
    }
}

/// Takes one step of a run. A step out of turn, and any step after the end,
/// leaves the state as it is.
pub fn step(config: &FunctionConfig, state: ExecutionState, event: Event) -> (r: ExecutionState)
    ensures
        match (state, event) {
            (ExecutionState::Decoding, Event::Request { data }) => if refuses_request(
                *config,
                data@,
            ) {
                r == (ExecutionState::Failed { error: FunctionError::ParameterDecode })
            } else {
                r matches ExecutionState::Fetching { parameters } && is_decoding_of(
                    config.schema,
                    config.policy,
                    data@,
                    Ok::<DecodedParameters, ParameterDecodeError>(parameters),
                )
            },
            (ExecutionState::Fetching { .. }, Event::Fetched { response }) => r
                == (ExecutionState::Encoding { observation: response.result }),
            (ExecutionState::Fetching { .. }, Event::FetchFailed) => r == (ExecutionState::Failed {
                error: FunctionError::Fetch,
            }),
            (ExecutionState::Encoding { observation }, Event::Proceed) => match encode_spec(
                observation.mark_iv,
                config.scale,
            ) {
                Ok(value) => r == (ExecutionState::Building {
                    value,
                    timestamp: observation.timestamp,
                }),
                Err(e) => r == (ExecutionState::Failed { error: FunctionError::Encoding(e) }),
            },
            (ExecutionState::Building { value, timestamp }, Event::Proceed) => if takes_value_and_time(
                config.method,
            ) {
                r matches ExecutionState::Done { calls } && is_report(
                    calls@,
                    *config,
                    value,
                    timestamp,
                )
            } else {
                r matches ExecutionState::Failed { error: FunctionError::SchemaMismatch(e) }
                    && is_report_mismatch(config.method, e)
            },
            _ => r == state,
        },
{
    match state {
        ExecutionState::Decoding => match event {
            Event::Request { data } => match decode_request(
                config.schema,
                config.policy,
                data.as_slice(),
            ) {
                Ok(parameters) => ExecutionState::Fetching { parameters },
                Err(_) => ExecutionState::Failed { error: FunctionError::ParameterDecode },
            },
            _ => ExecutionState::Decoding,
        },
        ExecutionState::Fetching { parameters } => match event {
            Event::Fetched { response } => ExecutionState::Encoding {
                observation: response.result,
            },
            Event::FetchFailed => ExecutionState::Failed { error: FunctionError::Fetch },
            _ => ExecutionState::Fetching { parameters },
        },
        ExecutionState::Encoding { observation } => match event {
            Event::Proceed => match encode(&observation.mark_iv, config.scale) {
                Ok(value) => ExecutionState::Building { value, timestamp: observation.timestamp },
                Err(e) => ExecutionState::Failed { error: FunctionError::Encoding(e) },
            },
            _ => ExecutionState::Encoding { observation },
        },
        ExecutionState::Building { value, timestamp } => match event {
            Event::Proceed => match report(config, value, timestamp) {
                Ok(calls) => ExecutionState::Done { calls },
                Err(e) => ExecutionState::Failed { error: FunctionError::SchemaMismatch(e) },
            },
            _ => ExecutionState::Building { value, timestamp },
        },
        ExecutionState::Done { calls } => ExecutionState::Done { calls },
        ExecutionState::Failed { error } => ExecutionState::Failed { error },
    }
}

/// Runs the function on one request, given what the external source
/// answered, or `None` where it failed. The steps are taken in order, and the
/// first that fails ends the run: every call is returned, or none.
pub fn execute(config: &FunctionConfig, request: &[u8], fetched: Option<DeribitResponse>) -> (r: Result<
    Vec<CallbackCall>,
    FunctionError,
>)
    ensures
        if refuses_request(*config, request@) {
            r == Err::<Vec<CallbackCall>, FunctionError>(FunctionError::ParameterDecode)
        } else {
            match fetched {
                None => r == Err::<Vec<CallbackCall>, FunctionError>(FunctionError::Fetch),
                Some(response) => match encode_spec(response.result.mark_iv, config.scale) {
                    Err(e) => r == Err::<Vec<CallbackCall>, FunctionError>(
                        FunctionError::Encoding(e),
                    ),
                    Ok(value) => if takes_value_and_time(config.method) {
                        r matches Ok(calls) && is_report(
                            calls@,
                            *config,
                            value,
                            response.result.timestamp,
                        )
                    } else {
                        r matches Err(FunctionError::SchemaMismatch(e)) && is_report_mismatch(
                            config.method,
                            e,
                        )
                    },
                },
            }
        },
{
    match decode_request(config.schema, config.policy, request) {
        Err(_) => { return Err(FunctionError::ParameterDecode); },
        Ok(_) => {},
    }
    let observation = match fetched {
        None => { return Err(FunctionError::Fetch); },
        Some(response) => response.result,
    };
    let value = match encode(&observation.mark_iv, config.scale) {
        Err(e) => { return Err(FunctionError::Encoding(e)); },
        Ok(value) => value,
    };
    match report(config, value, observation.timestamp) {
        Ok(calls) => Ok(calls),
        Err(e) => Err(FunctionError::SchemaMismatch(e)),
    }
}

} // verus!
