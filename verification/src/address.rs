//! Contract addresses and their textual form.

use vstd::prelude::*;

verus! {

/// The address of an account or a contract: twenty bytes.
#[derive(Clone, Copy, Debug, PartialEq, Eq)]
pub struct Address {
    pub bytes: [u8; 20],
}

/// A text that is not the hexadecimal form of an address.
#[derive(Clone, Copy, Debug, PartialEq, Eq)]
pub struct AddressParseError;

/// What `ethers::types::Address` reads from a text by `FromStr`: the twenty
/// bytes, or nothing where the text is not an address.
pub uninterp spec fn parsed_address(text: Seq<char>) -> Option<Seq<u8>>;

/// Calls `str::parse` for `ethers::types::Address`.
///
/// Trusted: the outcome depends on the text alone, and is named
/// [`parsed_address`].
#[verifier::external_body]
fn address_from_text(text: &str) -> (r: Option<[u8; 20]>)
    ensures
        match parsed_address(text@) {
            Some(bytes) => r matches Some(a) && a@ == bytes,
            None => r is None,
        },
{
    text.parse::<ethers::types::Address>().ok().map(|a| a.0)
}

impl Address {
    /// Reads an address from its hexadecimal form.
    pub fn parse(text: &str) -> (r: Result<Address, AddressParseError>)
        ensures
            match parsed_address(text@) {
                Some(bytes) => r matches Ok(a) && a.bytes@ == bytes,
                None => r == Err::<Address, AddressParseError>(AddressParseError),
            },
    {
        match address_from_text(text) {
            Some(bytes) => Ok(Address { bytes }),
            None => Err(AddressParseError),
        }
    }
}

} // verus!
