//! The emission channel: bounds the calls of a run with an expiration and a
//! gas budget, signs them once, and lets one envelope out at most.

use crate::abi::{abi_encode, be_word, encoding, lemma_encoding_push, word_of, AbiValue};
use crate::callback::CallbackCall;
use crate::hash::{keccak256, keccak256_of};
use crate::identity::{signature_of, AttestationIdentity};
use vstd::prelude::*;

verus! {

/// What is submitted for verification: the calls, their bounds, the evidence
/// of the identity that signed, and its signature.
#[derive(Clone, Debug, PartialEq, Eq)]
pub struct EmissionEnvelope {
    pub calls: Vec<CallbackCall>,
    /// Seconds since the Unix epoch after which the calls are void.
    pub expiration: u64,
    pub gas_budget: u64,
    pub evidence: Vec<u8>,
    pub signature: [u8; 65],
}

/// Why nothing was emitted, or why what was emitted does not count.
#[derive(Clone, Copy, Debug, PartialEq, Eq)]
pub enum EmissionError {
    /// There are no calls to emit.
    NoCalls,
    /// The expiration is not after the time of emission.
    Expired,
    /// The expiration is beyond the last second that can be written.
    Overflow,
    /// The channel has emitted, or failed, before.
    Closed,
    /// The identity could not sign.
    Signing,
    /// The relayer was not reached or refused the envelope.
    Delivery,
    /// Nothing was submitted that could be confirmed.
    NotSubmitted,
}

/// The seconds for which an emission stays valid.
pub const EXPIRATION_SECONDS: i64 = 120;

/// The gas that the calls of an emission may use.
pub const GAS_LIMIT: u64 = 5_500_000;

/// Where a channel stands.
#[derive(Clone, Copy, Debug, PartialEq, Eq)]
pub enum ChannelState {
    /// Nothing was emitted yet.
    Ready,
    /// An envelope went out, and the relayer has not answered.
    Submitted,
    /// The relayer took the envelope.
    Delivered,
    /// The relayer did not take the envelope.
    Rejected,
    /// Emission failed before anything went out.
    Aborted,
}

/// The channel of one request.
pub struct EmissionChannel {
    state: ChannelState,
}

/// The two words that stand for a call in what is signed: its target, and
/// the hash of its bytes.
pub open spec fn call_words(call: CallbackCall) -> Seq<u8> {
    Seq::new(12, |i: int| 0u8) + call.target.bytes@ + keccak256_of(
        call.selector@ + encoding(call.args@),
    )
}

/// The words of the calls, in order.
pub open spec fn calls_words(calls: Seq<CallbackCall>) -> Seq<u8>
    decreases calls.len(),
{
    if calls.len() == 0 {
        Seq::empty()
    } else {
        calls_words(calls.drop_last()) + call_words(calls.last())
    }
}

/// The bytes that are hashed and signed: the expiration, the gas budget,
/// then the words of the calls.
pub open spec fn envelope_message(calls: Seq<CallbackCall>, expiration: u64, gas_budget: u64) -> Seq<
    u8,
> {
    be_word(expiration as int) + be_word(gas_budget as int) + calls_words(calls)
}

/// The hash that is signed.
pub open spec fn envelope_digest(calls: Seq<CallbackCall>, expiration: u64, gas_budget: u64) -> Seq<
    u8,
> {
    keccak256_of(envelope_message(calls, expiration, gas_budget))
}

/// The expiration of an emission at `now` that is to stay valid for
/// `window_seconds`: strictly after `now`, or an error.
pub fn expiration_after(now: u64, window_seconds: i64) -> (r: Result<u64, EmissionError>)
    ensures
        r == if window_seconds <= 0 {
            Err::<u64, EmissionError>(EmissionError::Expired)
        } else if now + window_seconds > u64::MAX {
            Err::<u64, EmissionError>(EmissionError::Overflow)
        } else {
            Ok::<u64, EmissionError>((now + window_seconds) as u64)
        },
        r matches Ok(expiration) ==> expiration > now,
{
    if window_seconds <= 0 {
        Err(EmissionError::Expired)
    } else {
        match now.checked_add(window_seconds as u64) {
            Some(expiration) => Ok(expiration),
            None => Err(EmissionError::Overflow),
        }
    }
}

/// The hash of what an envelope of these calls and bounds signs.
pub fn digest(calls: &Vec<CallbackCall>, expiration: u64, gas_budget: u64) -> (r: [u8; 32])
    ensures
        r@ == envelope_digest(calls@, expiration, gas_budget),
{
    let mut fields: Vec<AbiValue> = Vec::new();
    let first = AbiValue::unsigned(expiration);
    let second = AbiValue::unsigned(gas_budget);
    proof {
        lemma_encoding_push(Seq::empty(), first);
        lemma_encoding_push(Seq::empty().push(first), second);
    }
    fields.push(first);
    fields.push(second);
    assert(calls@.subrange(0, 0) == Seq::<CallbackCall>::empty());
    let mut i: usize = 0;
    while i < calls.len()
        invariant
            i <= calls@.len(),
            encoding(fields@) == envelope_message(
                calls@.subrange(0, i as int),
                expiration,
                gas_budget,
            ),
        decreases calls@.len() - i,
    {
        let call = &calls[i];
        let bytes = call.calldata();
        let hash = keccak256(bytes.as_slice());
        let target = AbiValue::Address(call.target.bytes);
        let hashed = AbiValue::Uint256(hash);
        proof {
            lemma_encoding_push(fields@, target);
            lemma_encoding_push(fields@.push(target), hashed);
            assert(calls@.subrange(0, i + 1).drop_last() == calls@.subrange(0, i as int));
            assert(calls@.subrange(0, i + 1).last() == calls@[i as int]);
            assert(word_of(target) + word_of(hashed) == call_words(calls@[i as int]));
        }
        fields.push(target);
        fields.push(hashed);
        i = i + 1;
    }
    assert(calls@.subrange(0, i as int) == calls@);
    let message = abi_encode(&fields);
    keccak256(message.as_slice())
}

/// Whatever was done with a channel, at most one envelope has left it.
pub proof fn law_at_most_one_envelope(channel: EmissionChannel)
    ensures
        channel.emitted() <= 1,
{
}

impl EmissionChannel {
    /// Where the channel stands.
    pub closed spec fn state(self) -> ChannelState {
        self.state
    }

    /// How many envelopes have left the channel: none or one.
    pub open spec fn emitted(self) -> nat {
        match self.state() {
            ChannelState::Ready | ChannelState::Aborted => 0,
            ChannelState::Submitted | ChannelState::Delivered | ChannelState::Rejected => 1,
        }
    }

    /// The channel of a new request.
    pub fn new() -> (r: EmissionChannel)
        ensures
            r.state() == ChannelState::Ready,
    {
        EmissionChannel { state: ChannelState::Ready }
    }

    /// Where the channel stands.
    pub fn status(&self) -> (r: ChannelState)
        ensures
            r == self.state(),
    {
        self.state
    }

    /// Signs `calls` with their bounds and lets the envelope out, once.
    ///
    /// Nothing goes out where the channel was used before, where there are no
    /// calls, where `expiration` is not after `now`, or where the identity
    /// cannot sign; each of these closes the channel.
    pub fn emit(
        &mut self,
        calls: Vec<CallbackCall>,
        expiration: u64,
        gas_budget: u64,
        identity: &AttestationIdentity,
        now: u64,
    ) -> (r: Result<EmissionEnvelope, EmissionError>)
        ensures
            final(self).emitted() <= 1,
            final(self).emitted() == old(self).emitted() + (if r is Ok {
                1nat
            } else {
                0nat
            }),
            if old(self).state() != ChannelState::Ready {
                &&& r == Err::<EmissionEnvelope, EmissionError>(EmissionError::Closed)
                &&& final(self).state() == old(self).state()
            } else if calls@.len() == 0 {
                &&& r == Err::<EmissionEnvelope, EmissionError>(EmissionError::NoCalls)
                &&& final(self).state() == ChannelState::Aborted
            } else if expiration <= now {
                &&& r == Err::<EmissionEnvelope, EmissionError>(EmissionError::Expired)
                &&& final(self).state() == ChannelState::Aborted
            } else {
                match signature_of(identity.key(), envelope_digest(calls@, expiration, gas_budget)) {
                    None => {
                        &&& r == Err::<EmissionEnvelope, EmissionError>(EmissionError::Signing)
                        &&& final(self).state() == ChannelState::Aborted
                    },
                    Some(signature) => {
                        &&& r matches Ok(envelope)
                        &&& envelope.calls@ == calls@
                        &&& envelope.expiration == expiration
                        &&& envelope.gas_budget == gas_budget
                        &&& envelope.evidence@ == identity.evidence()
                        &&& envelope.signature@ == signature
                        &&& final(self).state() == ChannelState::Submitted
                    },
                }
            },
    {
        match self.state {
            ChannelState::Ready => {},
            _ => { return Err(EmissionError::Closed); },
        }
        if calls.len() == 0 {
            self.state = ChannelState::Aborted;
            return Err(EmissionError::NoCalls);
        }
        if expiration <= now {
            self.state = ChannelState::Aborted;
            return Err(EmissionError::Expired);
        }
        let hash = digest(&calls, expiration, gas_budget);
        match identity.sign(&hash) {
            Err(_) => {
                self.state = ChannelState::Aborted;
                Err(EmissionError::Signing)
            },
            Ok(signature) => {
                self.state = ChannelState::Submitted;
                let evidence = identity.attestation().clone();
                Ok(EmissionEnvelope { calls, expiration, gas_budget, evidence, signature })
            },
        }
    }

    /// Emits `calls` at `now` with an expiration `window_seconds` later.
    ///
    /// A window that is not positive, or that ends beyond the last second
    /// that can be written, closes the channel with nothing signed; otherwise
    /// the expiration is after `now`, and the rest is as in [`Self::emit`].
    pub fn emit_within(
        &mut self,
        calls: Vec<CallbackCall>,
        window_seconds: i64,
        gas_budget: u64,
        identity: &AttestationIdentity,
        now: u64,
    ) -> (r: Result<EmissionEnvelope, EmissionError>)
        ensures
            final(self).emitted() <= 1,
            final(self).emitted() == old(self).emitted() + (if r is Ok {
                1nat
            } else {
                0nat
            }),
            r matches Ok(envelope) ==> envelope.expiration > now,
            if old(self).state() != ChannelState::Ready {
                &&& r == Err::<EmissionEnvelope, EmissionError>(EmissionError::Closed)
                &&& final(self).state() == old(self).state()
            } else if window_seconds <= 0 {
                &&& r == Err::<EmissionEnvelope, EmissionError>(EmissionError::Expired)
                &&& final(self).state() == ChannelState::Aborted
            } else if now + window_seconds > u64::MAX {
                &&& r == Err::<EmissionEnvelope, EmissionError>(EmissionError::Overflow)
                &&& final(self).state() == ChannelState::Aborted
            } else if calls@.len() == 0 {
                &&& r == Err::<EmissionEnvelope, EmissionError>(EmissionError::NoCalls)
                &&& final(self).state() == ChannelState::Aborted
            } else {
                match signature_of(
                    identity.key(),
                    envelope_digest(calls@, (now + window_seconds) as u64, gas_budget),
                ) {
                    None => {
                        &&& r == Err::<EmissionEnvelope, EmissionError>(EmissionError::Signing)
                        &&& final(self).state() == ChannelState::Aborted
                    },
                    Some(signature) => {
                        &&& r matches Ok(envelope)
                        &&& envelope.calls@ == calls@
                        &&& envelope.expiration == now + window_seconds
                        &&& envelope.gas_budget == gas_budget
                        &&& envelope.evidence@ == identity.evidence()
                        &&& envelope.signature@ == signature
                        &&& final(self).state() == ChannelState::Submitted
                    },
                }
            },
    {
        match self.state {
            ChannelState::Ready => {},
            _ => { return Err(EmissionError::Closed); },
        }
        match expiration_after(now, window_seconds) {
            Err(e) => {
                self.state = ChannelState::Aborted;
                Err(e)
            },
            Ok(expiration) => self.emit(calls, expiration, gas_budget, identity, now),
        }
    }

    /// Records what became of the envelope that went out: the relayer took
    /// it, or did not.
    pub fn confirm(&mut self, accepted: bool) -> (r: Result<(), EmissionError>)
        ensures
            final(self).emitted() == old(self).emitted(),
            if old(self).state() != ChannelState::Submitted {
                &&& r == Err::<(), EmissionError>(EmissionError::NotSubmitted)
                &&& final(self).state() == old(self).state()
            } else if accepted {
                &&& r is Ok
                &&& final(self).state() == ChannelState::Delivered
            } else {
                &&& r == Err::<(), EmissionError>(EmissionError::Delivery)
                &&& final(self).state() == ChannelState::Rejected
            },
    {
        match self.state {
            ChannelState::Submitted => {
                if accepted {
                    self.state = ChannelState::Delivered;
                    Ok(())
                } else {
                    self.state = ChannelState::Rejected;
                    Err(EmissionError::Delivery)
                }
            },
            _ => Err(EmissionError::NotSubmitted),
        }
    }

    /// Whether the run may end in success: an envelope went out and the
    /// relayer took it.
    pub fn succeeded(&self) -> (r: bool)
        ensures
            r == (self.state() == ChannelState::Delivered),
    {
        match self.state {
            ChannelState::Delivered => true,
            _ => false,
        }
    }
}

} // verus!
