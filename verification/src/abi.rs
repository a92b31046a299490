//! The receiver's argument types and values, and their contract ABI
//! encoding in words of thirty-two bytes.

use vstd::prelude::*;

verus! {

/// Two to the power 256: the count of values that a word can hold.
pub open spec fn word_modulus() -> nat {
    0x1_0000_0000_0000_0000_0000_0000_0000_0000_0000_0000_0000_0000_0000_0000_0000_0000_0000_0000_0000_0000nat
}

/// 256 to the power `n`.
pub open spec fn pow256(n: nat) -> nat
    decreases n,
{
    if n == 0 {
        1
    } else {
        256 * pow256((n - 1) as nat)
    }
}

/// The word that writes `v` in base 256, most significant byte first.
pub open spec fn be_word(v: int) -> Seq<u8> {
    Seq::new(32, |i: int| ((v / pow256((31 - i) as nat) as int) % 256) as u8)
}

/// The unsigned number that stands for `v` in a signed word: `v` itself, or
/// for a negative `v` its distance above `-2^256`.
pub open spec fn twos_complement(v: int) -> int {
    if v >= 0 {
        v
    } else {
        word_modulus() + v
    }
}

/// A type that the receiver's interface can declare for an argument.
#[derive(Clone, Copy, Debug, PartialEq, Eq)]
pub enum AbiType {
    Address,
    Int256,
    Uint256,
}

/// One argument, as the bytes that go on the wire.
#[derive(Clone, Copy, Debug, PartialEq, Eq)]
pub enum AbiValue {
    /// An account or contract address.
    Address([u8; 20]),
    /// A signed number in two's complement, most significant byte first.
    Int256([u8; 32]),
    /// An unsigned number, most significant byte first.
    Uint256([u8; 32]),
}

/// The bytes an argument carries: twenty for an address, a word otherwise.
pub open spec fn payload(value: AbiValue) -> Seq<u8> {
    match value {
        AbiValue::Address(a) => a@,
        AbiValue::Int256(w) => w@,
        AbiValue::Uint256(w) => w@,
    }
}

/// The declared type that an argument satisfies.
pub open spec fn kind_of(value: AbiValue) -> AbiType {
    match value {
        AbiValue::Address(_) => AbiType::Address,
        AbiValue::Int256(_) => AbiType::Int256,
        AbiValue::Uint256(_) => AbiType::Uint256,
    }
}

/// The word that encodes one argument: an address is padded on the left with
/// twelve zero bytes, a number is its own word.
pub open spec fn word_of(value: AbiValue) -> Seq<u8> {
    match value {
        AbiValue::Address(a) => Seq::new(12, |i: int| 0u8) + a@,
        AbiValue::Int256(w) => w@,
        AbiValue::Uint256(w) => w@,
    }
}

/// The encoding of a list of arguments: their words, one after the other.
pub open spec fn encoding(values: Seq<AbiValue>) -> Seq<u8>
    decreases values.len(),
{
    if values.len() == 0 {
        Seq::empty()
    } else {
        encoding(values.drop_last()) + word_of(values.last())
    }
}

/// Encoding one more argument adds its word at the end.
pub proof fn lemma_encoding_push(values: Seq<AbiValue>, value: AbiValue)
    ensures
        encoding(values.push(value)) == encoding(values) + word_of(value),
{
    assert(values.push(value).drop_last() == values);
}

/// An encoding holds one word for each argument.
pub proof fn lemma_encoding_len(values: Seq<AbiValue>)
    ensures
        encoding(values).len() == 32 * values.len(),
    decreases values.len(),
{
    if values.len() > 0 {
        lemma_encoding_len(values.drop_last());
    }
}

/// The types of `values`, in order.
pub open spec fn kinds_of(values: Seq<AbiValue>) -> Seq<AbiType> {
    Seq::new(values.len(), |i: int| kind_of(values[i]))
}

/// Whether `values` are what `data` holds for the declared `types`: one word
/// for each type, in order, of which an address takes the last twenty bytes.
pub open spec fn decodes_to(types: Seq<AbiType>, data: Seq<u8>, values: Seq<AbiValue>) -> bool {
    &&& values.len() == types.len()
    &&& forall|i: int|
        0 <= i < types.len() ==> {
            &&& kind_of(#[trigger] values[i]) == types[i]
            &&& payload(values[i]) == data.subrange(
                32 * i + (32 - payload(values[i]).len()),
                32 * i + 32,
            )
        }
}

/// Decoding inverts encoding: what an encoding holds for the types of its
/// arguments is those arguments.
pub proof fn law_decoding_inverts_encoding(values: Seq<AbiValue>)
    ensures
        decodes_to(kinds_of(values), encoding(values), values),
    decreases values.len(),
{
    let data = encoding(values);
    lemma_encoding_len(values);
    if values.len() > 0 {
        let front = values.drop_last();
        let last = values.last();
        law_decoding_inverts_encoding(front);
        lemma_encoding_len(front);
        assert forall|i: int| 0 <= i < values.len() implies payload(#[trigger] values[i])
            == data.subrange(32 * i + (32 - payload(values[i]).len()), 32 * i + 32) by {
            let width = payload(values[i]).len() as int;
            if i < front.len() {
                assert(values[i] == front[i]);
                assert(data.subrange(32 * i + (32 - width), 32 * i + 32) == encoding(
                    front,
                ).subrange(32 * i + (32 - width), 32 * i + 32));
            } else {
                assert(data.subrange(32 * i, 32 * i + 32) == word_of(last));
                assert(word_of(last).subrange(32 - width, 32) == payload(last));
                assert(data.subrange(32 * i + (32 - width), 32 * i + 32) == word_of(
                    last,
                ).subrange(32 - width, 32));
            }
        }
    }
}

impl AbiValue {
    /// The declared type that this argument satisfies.
    pub fn kind(&self) -> (r: AbiType)
        ensures
            r == kind_of(*self),
    {
        match self {
            AbiValue::Address(_) => AbiType::Address,
            AbiValue::Int256(_) => AbiType::Int256,
            AbiValue::Uint256(_) => AbiType::Uint256,
        }
    }

    /// The signed word that holds `value`.
    pub fn signed(value: i128) -> (r: AbiValue)
        ensures
            r matches AbiValue::Int256(w) && w@ == be_word(twos_complement(value as int)),
    {
        AbiValue::Int256(int256_word(value))
    }

    /// The unsigned word that holds `value`.
    pub fn unsigned(value: u64) -> (r: AbiValue)
        ensures
            r matches AbiValue::Uint256(w) && w@ == be_word(value as int),
    {
        AbiValue::Uint256(uint256_word(value))
    }
}

/// Calls `ethers::types::U256::from` on `value` and writes the number out
/// with `to_big_endian`.
///
/// Trusted: the word returned writes `value`, most significant byte first.
#[verifier::external_body]
pub(crate) fn uint256_word(value: u64) -> (w: [u8; 32])
    ensures
        w@ == be_word(value as int),
{
    let mut w = [0u8; 32];
    ethers::types::U256::from(value).to_big_endian(&mut w);
    w
}

/// Calls `ethers::types::I256::from` on `value` and writes its raw word out
/// with `to_big_endian`.
///
/// Trusted: the word returned writes `value` in two's complement over 256
/// bits, most significant byte first.
#[verifier::external_body]
pub(crate) fn int256_word(value: i128) -> (w: [u8; 32])
    ensures
        w@ == be_word(twos_complement(value as int)),
{
    let mut w = [0u8; 32];
    ethers::types::I256::from(value).into_raw().to_big_endian(&mut w);
    w
}

/// Calls `ethers::abi::encode` on the tokens that stand for `values`.
///
/// Trusted: an address, a signed and an unsigned number each encode as one
/// word, and the words follow each other in the order of the arguments.
#[verifier::external_body]
pub(crate) fn abi_encode(values: &Vec<AbiValue>) -> (r: Vec<u8>)
    ensures
        r@ == encoding(values@),
{
    let tokens: Vec<ethers::abi::Token> = values.iter().map(|v| match v {
        AbiValue::Address(a) => ethers::abi::Token::Address(ethers::types::H160(*a)),
        AbiValue::Int256(w) => ethers::abi::Token::Int(ethers::types::U256::from_big_endian(w)),
        AbiValue::Uint256(w) => ethers::abi::Token::Uint(ethers::types::U256::from_big_endian(w)),
    }).collect();
    ethers::abi::encode(&tokens)
}

/// Calls `ethers::abi::decode` on `data` with the parameter types that stand
/// for `types`.
///
/// Trusted: decoding succeeds exactly where `data` holds a word for each
/// type; bytes after those words are ignored; an address is the last twenty
/// bytes of its word, whatever the first twelve hold, and a number is its
/// whole word.
#[verifier::external_body]
pub(crate) fn abi_decode(types: &Vec<AbiType>, data: &[u8]) -> (r: Option<Vec<AbiValue>>)
    ensures
        r is Some <==> data@.len() >= 32 * types@.len(),
        r matches Some(values) ==> decodes_to(types@, data@, values@),
{
    let kinds: Vec<ethers::abi::ParamType> = types.iter().map(|t| match t {
        AbiType::Address => ethers::abi::ParamType::Address,
        AbiType::Int256 => ethers::abi::ParamType::Int(256),
        AbiType::Uint256 => ethers::abi::ParamType::Uint(256),
    }).collect();
    let tokens = ethers::abi::decode(&kinds, data).ok()?;
    tokens.into_iter().map(|t| match t {
        ethers::abi::Token::Address(a) => Some(AbiValue::Address(a.0)),
        ethers::abi::Token::Int(w) => Some(AbiValue::Int256(w.into())),
        ethers::abi::Token::Uint(w) => Some(AbiValue::Uint256(w.into())),
        _ => None,
    }).collect()
}

} // verus!
