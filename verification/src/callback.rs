//! The callback builder: one pending invocation of the receiver, checked
//! against the method that the receiver declares.

use crate::abi::{
    abi_encode, encoding, kind_of, kinds_of, lemma_encoding_len, AbiType, AbiValue,
};
use crate::address::Address;
use vstd::prelude::*;
use vstd::string::*;

verus! {

/// A method of the receiver: its name and the types of its arguments.
#[derive(Clone, Debug, PartialEq, Eq)]
pub struct MethodSignature {
    pub name: String,
    pub inputs: Vec<AbiType>,
}

/// One pending invocation of the receiver.
#[derive(Clone, Debug, PartialEq, Eq)]
pub struct CallbackCall {
    pub target: Address,
    pub selector: [u8; 4],
    pub args: Vec<AbiValue>,
}

/// Arguments that are not what the method declares.
#[derive(Clone, Copy, Debug, PartialEq, Eq)]
pub enum SchemaMismatchError {
    /// The count of arguments differs from the count declared.
    Arity { declared: usize, given: usize },
    /// The argument at `index` is the first of another type than declared.
    Type { index: usize, expected: AbiType, found: AbiType },
}

/// The name of a type in a method's signature.
pub open spec fn name_of_type(t: AbiType) -> Seq<char> {
    match t {
        AbiType::Address => "address"@,
        AbiType::Int256 => "int256"@,
        AbiType::Uint256 => "uint256"@,
    }
}

/// The names of `types`, separated by commas.
pub open spec fn type_list(types: Seq<AbiType>) -> Seq<char>
    decreases types.len(),
{
    if types.len() == 0 {
        Seq::empty()
    } else if types.len() == 1 {
        name_of_type(types[0])
    } else {
        type_list(types.drop_last()) + ","@ + name_of_type(types.last())
    }
}

/// The signature of a method as it is hashed: `name(type,type)`.
pub open spec fn signature_text(name: Seq<char>, inputs: Seq<AbiType>) -> Seq<char> {
    name + "("@ + type_list(inputs) + ")"@
}

/// The first four bytes of the Keccak-256 hash of a signature, as
/// `ethers::utils::id` computes them.
pub uninterp spec fn selector_of(signature: Seq<char>) -> Seq<u8>;

/// Calls `ethers::utils::id`.
///
/// Trusted: the four bytes depend on the signature alone, and are named
/// [`selector_of`].
#[verifier::external_body]
fn method_id(signature: &str) -> (r: [u8; 4])
    ensures
        r@ == selector_of(signature@),
{
    ethers::utils::id(signature)
}

/// Whether `values` are of the declared `types`, one for one and in order.
pub open spec fn matches_schema(types: Seq<AbiType>, values: Seq<AbiValue>) -> bool {
    &&& values.len() == types.len()
    &&& forall|i: int| 0 <= i < types.len() ==> kind_of(#[trigger] values[i]) == types[i]
}

/// Whether `e` says how arguments of the types `given` fail the declared
/// `types`: by their count, or else at the first argument of another type.
pub open spec fn is_mismatch(types: Seq<AbiType>, given: Seq<AbiType>, e: SchemaMismatchError) -> bool {
    match e {
        SchemaMismatchError::Arity { declared, given: count } => {
            &&& given.len() != types.len()
            &&& declared == types.len()
            &&& count == given.len()
        },
        SchemaMismatchError::Type { index, expected, found } => {
            &&& given.len() == types.len()
            &&& index < given.len()
            &&& expected == types[index as int]
            &&& found == given[index as int]
            &&& expected != found
            &&& forall|j: int| 0 <= j < index ==> given[j] == types[j]
        },
    }
}

fn type_text(t: AbiType) -> (r: &'static str)
    ensures
        r@ == name_of_type(t),
{
    match t {
        AbiType::Address => "address",
        AbiType::Int256 => "int256",
        AbiType::Uint256 => "uint256",
    }
}

impl MethodSignature {
    /// The signature as it is hashed: `name(type,type)`.
    pub fn text(&self) -> (r: String)
        ensures
            r@ == signature_text(self.name@, self.inputs@),
    {
        let mut out = String::from_str(self.name.as_str());
        out.append("(");
        let mut i: usize = 0;
        while i < self.inputs.len()
            invariant
                i <= self.inputs@.len(),
                out@ == self.name@ + "("@ + type_list(self.inputs@.subrange(0, i as int)),
            decreases self.inputs@.len() - i,
        {
            let ghost before = self.inputs@.subrange(0, i as int);
            let ghost after = self.inputs@.subrange(0, i + 1);
            assert(after.drop_last() == before);
            if i > 0 {
                out.append(",");
            }
            out.append(type_text(self.inputs[i]));
            i = i + 1;
        }
        assert(self.inputs@.subrange(0, i as int) == self.inputs@);
        out.append(")");
        out
    }

    /// The four bytes that select this method in a call.
    pub fn selector(&self) -> (r: [u8; 4])
        ensures
            r@ == selector_of(signature_text(self.name@, self.inputs@)),
    {
        let text = self.text();
        method_id(text.as_str())
    }
}

/// Builds the invocation of `method` on `target` with `args`, where the
/// arguments are what the method declares, in count, type and order.
pub fn build(target: Address, method: &MethodSignature, args: Vec<AbiValue>) -> (r: Result<
    CallbackCall,
    SchemaMismatchError,
>)
    ensures
        match r {
            Ok(call) => {
                &&& matches_schema(method.inputs@, args@)
                &&& call.target == target
                &&& call.selector@ == selector_of(signature_text(method.name@, method.inputs@))
                &&& call.args@ == args@
            },
            Err(e) => is_mismatch(method.inputs@, kinds_of(args@), e),
        },
{
    if args.len() != method.inputs.len() {
        return Err(SchemaMismatchError::Arity { declared: method.inputs.len(), given: args.len() });
    }
    let mut i: usize = 0;
    while i < args.len()
        invariant
            i <= args@.len(),
            args@.len() == method.inputs@.len(),
            forall|j: int| 0 <= j < i ==> kind_of(#[trigger] args@[j]) == method.inputs@[j],
        decreases args@.len() - i,
    {
        let found = args[i].kind();
        let expected = method.inputs[i];
        if !same_type(expected, found) {
            return Err(SchemaMismatchError::Type { index: i, expected, found });
        }
        i = i + 1;
    }
    Ok(CallbackCall { target, selector: method.selector(), args })
}

fn same_type(a: AbiType, b: AbiType) -> (r: bool)
    ensures
        r == (a == b),
{
    match (a, b) {
        (AbiType::Address, AbiType::Address) => true,
        (AbiType::Int256, AbiType::Int256) => true,
        (AbiType::Uint256, AbiType::Uint256) => true,
        _ => false,
    }
}

impl CallbackCall {
    /// The bytes of the call: the selector, then the arguments' words.
    pub fn calldata(&self) -> (r: Vec<u8>)
        ensures
            r@ == self.selector@ + encoding(self.args@),
            r@.len() == 4 + 32 * self.args@.len(),
    {
        let mut out: Vec<u8> = Vec::new();
        out.push(self.selector[0]);
        out.push(self.selector[1]);
        out.push(self.selector[2]);
        out.push(self.selector[3]);
        assert(out@ == self.selector@);
        let mut words = abi_encode(&self.args);
        out.append(&mut words);
        proof {
            lemma_encoding_len(self.args@);
        }
        out
    }
}

} // verus!
