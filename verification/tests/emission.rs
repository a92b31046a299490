use ethers::types::{H160, H256, Signature};
use switchboard_function::abi::AbiValue;
use switchboard_function::address::Address;
use switchboard_function::callback::CallbackCall;
use switchboard_function::emission::{
    digest, expiration_after, ChannelState, EmissionChannel, EmissionError, EXPIRATION_SECONDS,
    GAS_LIMIT,
};
use switchboard_function::identity::{
    AttestationIdentity, IdentityError, IdentityProvider, SigningError,
};

fn key_one() -> [u8; 32] {
    let mut key = [0u8; 32];
    key[31] = 1;
    key
}

fn identity() -> AttestationIdentity {
    AttestationIdentity::bind(key_one(), vec![0xde, 0xad, 0xbe, 0xef]).ok().unwrap()
}

fn call() -> CallbackCall {
    CallbackCall {
        target: Address { bytes: [0x42; 20] },
        selector: ethers::utils::id("callback(int256,uint256)"),
        args: vec![AbiValue::signed(54320000), AbiValue::unsigned(1690000000)],
    }
}

fn word(value: u64) -> [u8; 32] {
    let mut w = [0u8; 32];
    w[24..].copy_from_slice(&value.to_be_bytes());
    w
}

#[test]
fn deployment_bounds_are_two_minutes_and_the_gas_limit() {
    assert_eq!(EXPIRATION_SECONDS, 120);
    assert_eq!(GAS_LIMIT, 5_500_000);
}

#[test]
fn expiration_is_after_now() {
    assert_eq!(expiration_after(1690000000, 120), Ok(1690000120));
    assert_eq!(expiration_after(0, 1), Ok(1));
    assert_eq!(expiration_after(u64::MAX - 1, 1), Ok(u64::MAX));
    for now in [0u64, 1, 1690000000, u64::MAX - 120] {
        assert!(expiration_after(now, EXPIRATION_SECONDS).unwrap() > now);
    }
}

#[test]
fn expiration_rejects_a_window_that_is_not_positive() {
    assert_eq!(expiration_after(1690000000, 0), Err(EmissionError::Expired));
    assert_eq!(expiration_after(1690000000, -120), Err(EmissionError::Expired));
    assert_eq!(expiration_after(0, i64::MIN), Err(EmissionError::Expired));
}

#[test]
fn expiration_rejects_a_time_that_cannot_be_written() {
    assert_eq!(expiration_after(u64::MAX, 1), Err(EmissionError::Overflow));
    assert_eq!(expiration_after(u64::MAX - 119, 120), Err(EmissionError::Overflow));
}

#[test]
fn digest_hashes_bounds_then_calls() {
    let mut message = Vec::new();
    message.extend_from_slice(&word(1690000120));
    message.extend_from_slice(&word(5_500_000));
    assert_eq!(digest(&vec![], 1690000120, 5_500_000), ethers::utils::keccak256(&message));
    message.extend_from_slice(&[0u8; 12]);
    message.extend_from_slice(&[0x42; 20]);
    message.extend_from_slice(&ethers::utils::keccak256(call().calldata()));
    assert_eq!(digest(&vec![call()], 1690000120, 5_500_000), ethers::utils::keccak256(&message));
    assert_ne!(
        digest(&vec![call()], 1690000120, 5_500_000),
        digest(&vec![call()], 1690000121, 5_500_000)
    );
}

#[test]
fn digest_of_nothing_is_a_known_hash() {
    let empty: [u8; 0] = [];
    let known = [
        0xc5, 0xd2, 0x46, 0x01, 0x86, 0xf7, 0x23, 0x3c, 0x92, 0x7e, 0x7d, 0xb2, 0xdc, 0xc7, 0x03,
        0xc0, 0xe5, 0x00, 0xb6, 0x53, 0xca, 0x82, 0x27, 0x3b, 0x7b, 0xfa, 0xd8, 0x04, 0x5d, 0x85,
        0xa4, 0x70,
    ];
    assert_eq!(ethers::utils::keccak256(empty), known);
    assert_ne!(digest(&vec![], 0, 0), known);
    assert_ne!(digest(&vec![], 0, 0), [0u8; 32]);
}

#[test]
fn emit_signs_and_submits_once() {
    let mut channel = EmissionChannel::new();
    assert_eq!(channel.status(), ChannelState::Ready);
    let now = 1690000000;
    let expiration = expiration_after(now, EXPIRATION_SECONDS).unwrap();
    let id = identity();
    let envelope = channel.emit(vec![call()], expiration, GAS_LIMIT, &id, now).unwrap();
    assert_eq!(channel.status(), ChannelState::Submitted);
    assert_eq!(envelope.calls, vec![call()]);
    assert_eq!(envelope.expiration, 1690000120);
    assert_eq!(envelope.gas_budget, 5_500_000);
    assert_eq!(envelope.evidence, vec![0xde, 0xad, 0xbe, 0xef]);
    let hash = digest(&vec![call()], expiration, GAS_LIMIT);
    let signature = Signature::try_from(&envelope.signature[..]).unwrap();
    let signer = signature.recover(H256(hash)).unwrap();
    assert_eq!(signer, H160(id.address().unwrap().bytes));
    let again = channel.emit(vec![call()], expiration, GAS_LIMIT, &id, now);
    assert_eq!(again, Err(EmissionError::Closed));
    assert_eq!(channel.status(), ChannelState::Submitted);
}

#[test]
fn emit_rejects_an_expiration_that_is_not_ahead() {
    let id = identity();
    let mut channel = EmissionChannel::new();
    let r = channel.emit(vec![call()], 1690000000, GAS_LIMIT, &id, 1690000000);
    assert_eq!(r, Err(EmissionError::Expired));
    assert_eq!(channel.status(), ChannelState::Aborted);
    let mut channel = EmissionChannel::new();
    let r = channel.emit(vec![call()], 1689999880, GAS_LIMIT, &id, 1690000000);
    assert_eq!(r, Err(EmissionError::Expired));
    assert_eq!(channel.status(), ChannelState::Aborted);
    let later = channel.emit(vec![call()], 1690000120, GAS_LIMIT, &id, 1690000000);
    assert_eq!(later, Err(EmissionError::Closed));
}

#[test]
fn emit_rejects_an_empty_list_of_calls() {
    let mut channel = EmissionChannel::new();
    let r = channel.emit(vec![], 1690000120, GAS_LIMIT, &identity(), 1690000000);
    assert_eq!(r, Err(EmissionError::NoCalls));
    assert_eq!(channel.status(), ChannelState::Aborted);
}

#[test]
fn emit_fails_where_the_key_cannot_sign() {
    let unusable = AttestationIdentity::bind([0u8; 32], vec![1]).ok().unwrap();
    assert!(unusable.address().is_none());
    assert_eq!(unusable.sign(&[7u8; 32]), Err(SigningError));
    let mut channel = EmissionChannel::new();
    let r = channel.emit(vec![call()], 1690000120, GAS_LIMIT, &unusable, 1690000000);
    assert_eq!(r, Err(EmissionError::Signing));
    assert_eq!(channel.status(), ChannelState::Aborted);
    assert!(!channel.succeeded());
}

#[test]
fn confirm_records_what_the_relayer_said() {
    let id = identity();
    let mut channel = EmissionChannel::new();
    assert_eq!(channel.confirm(true), Err(EmissionError::NotSubmitted));
    assert_eq!(channel.status(), ChannelState::Ready);
    channel.emit(vec![call()], 1690000120, GAS_LIMIT, &id, 1690000000).unwrap();
    assert!(!channel.succeeded());
    assert_eq!(channel.confirm(true), Ok(()));
    assert_eq!(channel.status(), ChannelState::Delivered);
    assert!(channel.succeeded());
    assert_eq!(channel.confirm(false), Err(EmissionError::NotSubmitted));
    assert_eq!(channel.status(), ChannelState::Delivered);

    let mut channel = EmissionChannel::new();
    channel.emit(vec![call()], 1690000120, GAS_LIMIT, &id, 1690000000).unwrap();
    assert_eq!(channel.confirm(false), Err(EmissionError::Delivery));
    assert_eq!(channel.status(), ChannelState::Rejected);
    assert!(!channel.succeeded());
    let r = channel.emit(vec![call()], 1690000120, GAS_LIMIT, &id, 1690000000);
    assert_eq!(r, Err(EmissionError::Closed));
}

#[test]
fn identity_signs_for_its_address() {
    let id = identity();
    let address = id.address().unwrap();
    let known = [
        0x7e, 0x5f, 0x45, 0x52, 0x09, 0x1a, 0x69, 0x12, 0x5d, 0x5d, 0xfc, 0xb7, 0xb8, 0xc2, 0x65,
        0x90, 0x29, 0x39, 0x5b, 0xdf,
    ];
    assert_eq!(address, Address { bytes: known });
    let hash = [0x5a; 32];
    let bytes = id.sign(&hash).unwrap();
    let signature = Signature::try_from(&bytes[..]).unwrap();
    assert_eq!(signature.recover(H256(hash)).unwrap(), H160(known));
    assert_eq!(id.sign(&hash).unwrap(), bytes);
    assert_ne!(id.sign(&[0x5b; 32]).unwrap(), bytes);
}

#[test]
fn identity_needs_evidence() {
    assert!(matches!(
        AttestationIdentity::bind(key_one(), vec![]),
        Err(IdentityError::EvidenceEmpty)
    ));
    assert_eq!(identity().attestation(), &vec![0xde, 0xad, 0xbe, 0xef]);
}

#[test]
fn provider_makes_one_identity() {
    let mut provider = IdentityProvider::new();
    assert!(provider.get().is_none());
    assert_eq!(provider.identity(key_one(), None), Err(IdentityError::EvidenceUnavailable));
    assert!(provider.get().is_none());
    assert_eq!(provider.identity(key_one(), Some(vec![])), Err(IdentityError::EvidenceEmpty));
    assert!(provider.get().is_none());
    assert_eq!(provider.identity(key_one(), Some(vec![1, 2, 3])), Ok(()));
    let first = provider.get().unwrap().address().unwrap();
    assert_eq!(provider.get().unwrap().attestation(), &vec![1, 2, 3]);
    let mut other = [0u8; 32];
    other[31] = 2;
    assert_eq!(provider.identity(other, Some(vec![9])), Ok(()));
    assert_eq!(provider.identity(other, None), Ok(()));
    assert_eq!(provider.get().unwrap().address().unwrap(), first);
    assert_eq!(provider.get().unwrap().attestation(), &vec![1, 2, 3]);
}

#[test]
fn emit_within_sets_the_expiration_ahead() {
    let id = identity();
    let mut channel = EmissionChannel::new();
    let envelope =
        channel.emit_within(vec![call()], EXPIRATION_SECONDS, GAS_LIMIT, &id, 1690000000).unwrap();
    assert_eq!(envelope.expiration, 1690000120);
    assert!(envelope.expiration > 1690000000);
    assert_eq!(channel.status(), ChannelState::Submitted);
    let mut direct = EmissionChannel::new();
    let same = direct.emit(vec![call()], 1690000120, GAS_LIMIT, &id, 1690000000).unwrap();
    assert_eq!(envelope, same);
    let again = channel.emit_within(vec![call()], EXPIRATION_SECONDS, GAS_LIMIT, &id, 1690000000);
    assert_eq!(again, Err(EmissionError::Closed));
}

#[test]
fn emit_within_rejects_a_window_that_is_not_positive() {
    let id = identity();
    for window in [0i64, -1, -120, i64::MIN] {
        let mut channel = EmissionChannel::new();
        let r = channel.emit_within(vec![call()], window, GAS_LIMIT, &id, 1690000000);
        assert_eq!(r, Err(EmissionError::Expired));
        assert_eq!(channel.status(), ChannelState::Aborted);
        assert!(!channel.succeeded());
        assert_eq!(channel.confirm(true), Err(EmissionError::NotSubmitted));
    }
    let mut channel = EmissionChannel::new();
    let r = channel.emit_within(vec![call()], 1, GAS_LIMIT, &id, u64::MAX);
    assert_eq!(r, Err(EmissionError::Overflow));
    assert_eq!(channel.status(), ChannelState::Aborted);
    let mut channel = EmissionChannel::new();
    let r = channel.emit_within(vec![], 120, GAS_LIMIT, &id, 1690000000);
    assert_eq!(r, Err(EmissionError::NoCalls));
}
