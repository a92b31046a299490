//! The attestation identity: a signing key bound to evidence that the code
//! runs inside the trusted environment, made once for a process.

use crate::address::Address;
use vstd::prelude::*;

verus! {

/// A signing key together with the evidence it is bound to. The key never
/// leaves this value: it is read only to sign and to name its address.
pub struct AttestationIdentity {
    key: [u8; 32],
    evidence: Vec<u8>,
}

/// Why no identity can be had.
#[derive(Clone, Copy, Debug, PartialEq, Eq)]
pub enum IdentityError {
    /// The host produced no attestation evidence.
    EvidenceUnavailable,
    /// The host produced evidence without content.
    EvidenceEmpty,
}

/// The key could not sign.
#[derive(Clone, Copy, Debug, PartialEq, Eq)]
pub struct SigningError;

/// The signature that `ethers::signers::LocalWallet` makes with the key
/// `key` over the hash `digest`: sixty-five bytes, or nothing where the key
/// is no valid scalar or signing fails.
pub uninterp spec fn signature_of(key: Seq<u8>, digest: Seq<u8>) -> Option<Seq<u8>>;

/// The address of the key `key`, as `ethers::signers::LocalWallet` derives
/// it: twenty bytes, or nothing where the key is no valid scalar.
pub uninterp spec fn address_of_key(key: Seq<u8>) -> Option<Seq<u8>>;

/// Calls `ethers::signers::LocalWallet::from_bytes` and, on the wallet,
/// `sign_hash`.
///
/// Trusted: the signature is made with a nonce derived from key and hash, so
/// it depends on these two alone, and is named [`signature_of`].
#[verifier::external_body]
fn sign_hash(key: &[u8; 32], digest: &[u8; 32]) -> (r: Option<[u8; 65]>)
    ensures
        match signature_of(key@, digest@) {
            Some(bytes) => r matches Some(s) && s@ == bytes,
            None => r is None,
        },
{
    let wallet = ethers::signers::LocalWallet::from_bytes(key).ok()?;
    let signature = wallet.sign_hash(ethers::types::H256(*digest)).ok()?;
    Some(signature.into())
}

/// Calls `ethers::signers::LocalWallet::from_bytes` and, on the wallet,
/// `Signer::address`.
///
/// Trusted: the address depends on the key alone, and is named
/// [`address_of_key`].
#[verifier::external_body]
fn wallet_address(key: &[u8; 32]) -> (r: Option<[u8; 20]>)
    ensures
        match address_of_key(key@) {
            Some(bytes) => r matches Some(a) && a@ == bytes,
            None => r is None,
        },
{
    let wallet = ethers::signers::LocalWallet::from_bytes(key).ok()?;
    Some(ethers::signers::Signer::address(&wallet).0)
}

impl AttestationIdentity {
    #[verifier::type_invariant]
    spec fn has_evidence(self) -> bool {
        self.evidence@.len() > 0
    }

    /// The key's bytes.
    pub closed spec fn key(self) -> Seq<u8> {
        self.key@
    }

    /// The evidence's bytes.
    pub closed spec fn evidence(self) -> Seq<u8> {
        self.evidence@
    }

    /// Binds a key to the evidence made for it. Evidence without content
    /// binds nothing.
    pub fn bind(key: [u8; 32], evidence: Vec<u8>) -> (r: Result<AttestationIdentity, IdentityError>)
        ensures
            match r {
                Ok(identity) => evidence@.len() > 0 && identity.key() == key@
                    && identity.evidence() == evidence@,
                Err(e) => evidence@.len() == 0 && e == IdentityError::EvidenceEmpty,
            },
    {
        if evidence.len() == 0 {
            Err(IdentityError::EvidenceEmpty)
        } else {
            Ok(AttestationIdentity { key, evidence })
        }
    }

    /// The evidence, which is not empty.
    pub fn attestation(&self) -> (r: &Vec<u8>)
        ensures
            r@ == self.evidence(),
            r@.len() > 0,
    {
        proof {
            use_type_invariant(self);
        }
        &self.evidence
    }

    /// The address that verifies this identity's signatures.
    pub fn address(&self) -> (r: Option<Address>)
        ensures
            match address_of_key(self.key()) {
                Some(bytes) => r matches Some(a) && a.bytes@ == bytes,
                None => r is None,
            },
    {
        match wallet_address(&self.key) {
            Some(bytes) => Some(Address { bytes }),
            None => None,
        }
    }

    /// Signs a hash.
    pub fn sign(&self, digest: &[u8; 32]) -> (r: Result<[u8; 65], SigningError>)
        ensures
            match signature_of(self.key(), digest@) {
                Some(bytes) => r matches Ok(s) && s@ == bytes,
                None => r == Err::<[u8; 65], SigningError>(SigningError),
            },
    {
        match sign_hash(&self.key, digest) {
            Some(signature) => Ok(signature),
            None => Err(SigningError),
        }
    }
}

/// Hands out the identity of the process: made on the first call that comes
/// with evidence, and the same ever after.
pub struct IdentityProvider {
    identity: Option<AttestationIdentity>,
}

impl IdentityProvider {
    /// The identity made so far.
    pub closed spec fn current(self) -> Option<AttestationIdentity> {
        self.identity
    }

    /// A provider that has made no identity yet.
    pub fn new() -> (r: IdentityProvider)
        ensures
            r.current() is None,
    {
        IdentityProvider { identity: None }
    }

    /// Makes the identity from a fresh key and the evidence that the host
    /// produced for it (`None` where it could not), unless one was made
    /// before: then that one stays, and what is handed in is dropped.
    pub fn identity(&mut self, key: [u8; 32], evidence: Option<Vec<u8>>) -> (r: Result<
        (),
        IdentityError,
    >)
        ensures
            old(self).current() is Some ==> r is Ok && final(self).current() == old(self).current(),
            old(self).current() is None ==> match evidence {
                None => r == Err::<(), IdentityError>(IdentityError::EvidenceUnavailable)
                    && final(self).current() is None,
                Some(bytes) => if bytes@.len() == 0 {
                    &&& r == Err::<(), IdentityError>(IdentityError::EvidenceEmpty)
                    &&& final(self).current() is None
                } else {
                    &&& r is Ok
                    &&& final(self).current() matches Some(identity)
                    &&& identity.key() == key@
                    &&& identity.evidence() == bytes@
                },
            },
    {
        if self.identity.is_some() {
            return Ok(());
        }
        match evidence {
            None => Err(IdentityError::EvidenceUnavailable),
            Some(bytes) => match AttestationIdentity::bind(key, bytes) {
                Ok(identity) => {
                    self.identity = Some(identity);
                    Ok(())
                },
                Err(e) => Err(e),
            },
        }
    }

    /// The identity, once made.
    pub fn get(&self) -> (r: Option<&AttestationIdentity>)
        ensures
            match self.current() {
                Some(identity) => r == Some(&identity),
                None => r is None,
            },
    {
        self.identity.as_ref()
    }
}

} // verus!
