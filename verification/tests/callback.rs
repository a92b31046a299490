use ethers::abi::Token;
use ethers::types::{H160, I256, U256};
use switchboard_function::abi::{AbiType, AbiValue};
use switchboard_function::address::{Address, AddressParseError};
use switchboard_function::callback::{build, CallbackCall, MethodSignature, SchemaMismatchError};

fn callback_method() -> MethodSignature {
    MethodSignature { name: "callback".to_string(), inputs: vec![AbiType::Int256, AbiType::Uint256] }
}

fn receiver() -> Address {
    Address { bytes: [0x11; 20] }
}

#[test]
fn unsigned_word_is_big_endian() {
    let mut word = [0u8; 32];
    word[28..].copy_from_slice(&[0x64, 0xbb, 0x5a, 0x80]);
    assert_eq!(AbiValue::unsigned(1690000000), AbiValue::Uint256(word));
    assert_eq!(AbiValue::unsigned(0), AbiValue::Uint256([0u8; 32]));
    let mut max = [0u8; 32];
    max[24..].copy_from_slice(&[0xff; 8]);
    assert_eq!(AbiValue::unsigned(u64::MAX), AbiValue::Uint256(max));
}

#[test]
fn signed_word_is_twos_complement() {
    let mut word = [0u8; 32];
    word[28..].copy_from_slice(&[0x03, 0x3c, 0xdb, 0x80]);
    assert_eq!(AbiValue::signed(54320000), AbiValue::Int256(word));
    assert_eq!(AbiValue::signed(-1), AbiValue::Int256([0xff; 32]));
    let mut minus_two = [0xff; 32];
    minus_two[31] = 0xfe;
    assert_eq!(AbiValue::signed(-2), AbiValue::Int256(minus_two));
    let mut least = [0xff; 32];
    least[16] = 0x80;
    least[17..].copy_from_slice(&[0u8; 15]);
    assert_eq!(AbiValue::signed(i128::MIN), AbiValue::Int256(least));
}

#[test]
fn values_know_their_types() {
    assert_eq!(AbiValue::signed(1).kind(), AbiType::Int256);
    assert_eq!(AbiValue::unsigned(1).kind(), AbiType::Uint256);
    assert_eq!(AbiValue::Address([0; 20]).kind(), AbiType::Address);
}

#[test]
fn signature_text_is_canonical() {
    assert_eq!(callback_method().text(), "callback(int256,uint256)");
    let none = MethodSignature { name: "ping".to_string(), inputs: vec![] };
    assert_eq!(none.text(), "ping()");
    let one = MethodSignature { name: "owner".to_string(), inputs: vec![AbiType::Address] };
    assert_eq!(one.text(), "owner(address)");
}

#[test]
fn selector_is_the_hash_of_the_signature() {
    let transfer = MethodSignature {
        name: "transfer".to_string(),
        inputs: vec![AbiType::Address, AbiType::Uint256],
    };
    assert_eq!(transfer.selector(), [0xa9, 0x05, 0x9c, 0xbb]);
    assert_eq!(callback_method().selector(), ethers::utils::id("callback(int256,uint256)"));
    assert_ne!(callback_method().selector(), transfer.selector());
}

#[test]
fn build_takes_matching_arguments() {
    let args = vec![AbiValue::signed(54320000), AbiValue::unsigned(1690000000)];
    let call = build(receiver(), &callback_method(), args.clone()).unwrap();
    assert_eq!(
        call,
        CallbackCall { target: receiver(), selector: callback_method().selector(), args }
    );
}

#[test]
fn build_rejects_a_wrong_count() {
    let r = build(receiver(), &callback_method(), vec![AbiValue::signed(1)]);
    assert_eq!(r, Err(SchemaMismatchError::Arity { declared: 2, given: 1 }));
    let r = build(receiver(), &callback_method(), vec![]);
    assert_eq!(r, Err(SchemaMismatchError::Arity { declared: 2, given: 0 }));
}

#[test]
fn build_rejects_the_first_wrong_type() {
    let r = build(
        receiver(),
        &callback_method(),
        vec![AbiValue::unsigned(1), AbiValue::signed(2)],
    );
    assert_eq!(
        r,
        Err(SchemaMismatchError::Type {
            index: 0,
            expected: AbiType::Int256,
            found: AbiType::Uint256
        })
    );
    let r = build(
        receiver(),
        &callback_method(),
        vec![AbiValue::signed(1), AbiValue::Address([0; 20])],
    );
    assert_eq!(
        r,
        Err(SchemaMismatchError::Type {
            index: 1,
            expected: AbiType::Uint256,
            found: AbiType::Address
        })
    );
}

#[test]
fn calldata_is_selector_then_words() {
    let args = vec![AbiValue::signed(-54320000), AbiValue::unsigned(1690000000)];
    let call = build(receiver(), &callback_method(), args).unwrap();
    let mut expected = ethers::utils::id("callback(int256,uint256)").to_vec();
    expected.extend(ethers::abi::encode(&[
        Token::Int(I256::from(-54320000i64).into_raw()),
        Token::Uint(U256::from(1690000000u64)),
    ]));
    let data = call.calldata();
    assert_eq!(data.len(), 4 + 64);
    assert_eq!(data, expected);
}

#[test]
fn calldata_pads_an_address() {
    let method = MethodSignature { name: "owner".to_string(), inputs: vec![AbiType::Address] };
    let call = build(receiver(), &method, vec![AbiValue::Address([0x22; 20])]).unwrap();
    let data = call.calldata();
    assert_eq!(&data[..4], &ethers::utils::id("owner(address)")[..]);
    assert_eq!(&data[4..16], &[0u8; 12][..]);
    assert_eq!(&data[16..], &[0x22u8; 20][..]);
    assert_eq!(data[4..], ethers::abi::encode(&[Token::Address(H160([0x22; 20]))])[..]);
}

#[test]
fn calldata_without_arguments_is_the_selector() {
    let method = MethodSignature { name: "ping".to_string(), inputs: vec![] };
    let call = build(receiver(), &method, vec![]).unwrap();
    assert_eq!(call.calldata(), ethers::utils::id("ping()").to_vec());
}

#[test]
fn address_parses_from_hex() {
    let mut bytes = [0u8; 20];
    bytes[19] = 0x01;
    bytes[0] = 0xab;
    let text = "0xab00000000000000000000000000000000000001";
    assert_eq!(Address::parse(text), Ok(Address { bytes }));
    assert_eq!(Address::parse(&text[2..]), Ok(Address { bytes }));
    assert_eq!(Address::parse("0xAB00000000000000000000000000000000000001"), Ok(Address { bytes }));
}

#[test]
fn address_rejects_what_is_no_address() {
    assert_eq!(Address::parse(""), Err(AddressParseError));
    assert_eq!(Address::parse("0x"), Err(AddressParseError));
    assert_eq!(Address::parse("0xab"), Err(AddressParseError));
    assert_eq!(Address::parse("0xzz00000000000000000000000000000000000001"), Err(AddressParseError));
    assert_eq!(
        Address::parse("0xab0000000000000000000000000000000000000100"),
        Err(AddressParseError)
    );
}
