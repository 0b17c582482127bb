use linera_base::data_types::BlockHeight;
use wit_conversions::contract;
use wit_conversions::hash_codec::{hash_words, le_word, HashValue};
use wit_conversions::host;
use wit_conversions::narrowing::{narrow_index, narrow_usize, ConversionError};
use wit_conversions::service;

fn counting_digest() -> HashValue {
    let mut bytes = [0u8; 64];
    for (i, b) in bytes.iter_mut().enumerate() {
        *b = i as u8;
    }
    HashValue::new(bytes)
}

fn filled_digest(byte: u8) -> HashValue {
    HashValue::new([byte; 64])
}

fn expected_counting_words() -> contract::HashValue {
    contract::HashValue {
        part1: 0x0706050403020100,
        part2: 0x0F0E0D0C0B0A0908,
        part3: 0x1716151413121110,
        part4: 0x1F1E1D1C1B1A1918,
        part5: 0x2726252423222120,
        part6: 0x2F2E2D2C2B2A2928,
        part7: 0x3736353433323130,
        part8: 0x3F3E3D3C3B3A3938,
    }
}

fn chain(byte: u8) -> host::ChainId {
    host::ChainId(filled_digest(byte))
}

fn effect_id(byte: u8, height: u64, index: usize) -> host::EffectId {
    host::EffectId { chain_id: chain(byte), height: BlockHeight(height), index }
}

#[test]
fn counting_digest_splits_into_little_endian_words() {
    let abi = contract::HashValue::from_host(counting_digest());
    assert_eq!(abi, expected_counting_words());
}

#[test]
fn service_namespace_encodes_digest_alike() {
    let c = contract::HashValue::from_host(counting_digest());
    let s = service::HashValue::from_host(counting_digest());
    let parts_c = [c.part1, c.part2, c.part3, c.part4, c.part5, c.part6, c.part7, c.part8];
    let parts_s = [s.part1, s.part2, s.part3, s.part4, s.part5, s.part6, s.part7, s.part8];
    assert_eq!(parts_c, parts_s);
}

#[test]
fn hash_words_round_trip_to_bytes() {
    let mut bytes = [0u8; 64];
    for (i, b) in bytes.iter_mut().enumerate() {
        *b = (i as u8).wrapping_mul(37).wrapping_add(11);
    }
    let h = HashValue::new(bytes);
    let words = hash_words(&h);
    let mut back = Vec::new();
    for w in words.iter() {
        back.extend_from_slice(&w.to_le_bytes());
    }
    assert_eq!(back, bytes.to_vec());
}

#[test]
fn le_word_reads_little_endian() {
    let h = counting_digest();
    assert_eq!(le_word(h.as_bytes(), 0), 0x0706050403020100);
    assert_eq!(le_word(h.as_bytes(), 56), 0x3F3E3D3C3B3A3938);
    assert_eq!(le_word(h.as_bytes(), 3), 0x0A09080706050403);
    assert_eq!(le_word(filled_digest(0xFF).as_bytes(), 8), u64::MAX);
}

#[test]
fn narrow_index_keeps_values_that_fit() {
    assert_eq!(narrow_index(0), Ok(0));
    assert_eq!(narrow_index(42), Ok(42));
    assert_eq!(narrow_index(u64::MAX as u128), Ok(u64::MAX));
    assert_eq!(narrow_usize(usize::MAX), Ok(usize::MAX as u64));
}

#[test]
fn narrow_index_rejects_values_past_u64() {
    assert_eq!(narrow_index(u64::MAX as u128 + 1), Err(ConversionError::IndexOverflow));
    assert_eq!(narrow_index(u128::MAX), Err(ConversionError::IndexOverflow));
}

#[test]
fn chain_id_is_its_encoded_digest() {
    let c = contract::chain_id_from_host(host::ChainId(counting_digest()));
    assert_eq!(c, expected_counting_words());
    let s = service::chain_id_from_host(host::ChainId(counting_digest()));
    assert_eq!(s.part1, 0x0706050403020100);
    assert_eq!(s.part8, 0x3F3E3D3C3B3A3938);
}

#[test]
fn effect_id_converts_each_field() {
    let abi = contract::EffectId::try_from_host(effect_id(1, 7, 3)).unwrap();
    assert_eq!(abi.chain_id, contract::HashValue::from_host(filled_digest(1)));
    assert_eq!(abi.chain_id.part1, 0x0101010101010101);
    assert_eq!(abi.height, 7);
    assert_eq!(abi.index, 3);
}

#[test]
fn effect_id_with_largest_index() {
    let abi = contract::EffectId::try_from_host(effect_id(2, u64::MAX, usize::MAX)).unwrap();
    assert_eq!(abi.height, u64::MAX);
    assert_eq!(abi.index, usize::MAX as u64);
}

#[test]
fn system_application_maps_to_system() {
    let abi = contract::ApplicationId::try_from_host(host::ApplicationId::System);
    assert_eq!(abi, Ok(contract::ApplicationId::System));
}

#[test]
fn user_application_carries_bytecode_and_creation() {
    let creation = effect_id(3, 11, 5);
    let id = host::ApplicationId::User {
        bytecode: host::BytecodeId(counting_digest()),
        creation,
    };
    let abi = contract::ApplicationId::try_from_host(id).unwrap();
    let expected = contract::ApplicationId::User(contract::UserApplicationId {
        bytecode: expected_counting_words(),
        creation: contract::EffectId::try_from_host(creation).unwrap(),
    });
    assert_eq!(abi, expected);
    match abi {
        contract::ApplicationId::User(user) => {
            assert_eq!(user.creation.height, 11);
            assert_eq!(user.creation.index, 5);
            assert_eq!(user.creation.chain_id.part3, 0x0303030303030303);
        }
        contract::ApplicationId::System => panic!("user application became the system"),
    }
}

#[test]
fn session_id_converts_application_kind_and_index() {
    let s = host::SessionId { application_id: host::ApplicationId::System, kind: 9, index: 4 };
    let abi = contract::SessionId::try_from_host(s).unwrap();
    assert_eq!(
        abi,
        contract::SessionId { application_id: contract::ApplicationId::System, kind: 9, index: 4 }
    );
}

#[test]
fn operation_context_converts_each_field() {
    let c = host::OperationContext { chain_id: chain(4), height: BlockHeight(100), index: 12 };
    let abi = contract::OperationContext::try_from_host(c).unwrap();
    assert_eq!(abi.chain_id, contract::HashValue::from_host(filled_digest(4)));
    assert_eq!(abi.height, 100);
    assert_eq!(abi.index, 12);
}

#[test]
fn effect_context_converts_nested_effect() {
    let c = host::EffectContext {
        chain_id: chain(5),
        height: BlockHeight(20),
        effect_id: effect_id(6, 19, 2),
    };
    let abi = contract::EffectContext::try_from_host(c).unwrap();
    assert_eq!(abi.chain_id.part8, 0x0505050505050505);
    assert_eq!(abi.height, 20);
    assert_eq!(abi.effect_id.chain_id.part1, 0x0606060606060606);
    assert_eq!(abi.effect_id.height, 19);
    assert_eq!(abi.effect_id.index, 2);
}

#[test]
fn callee_context_without_caller() {
    let c = host::CalleeContext { chain_id: chain(7), authenticated_caller_id: None };
    let abi = contract::CalleeContext::try_from_host(c).unwrap();
    assert_eq!(abi.authenticated_caller_id, None);
    assert_eq!(abi.chain_id.part2, 0x0707070707070707);
}

#[test]
fn callee_context_with_caller_matches_standalone_conversion() {
    let caller = host::ApplicationId::User {
        bytecode: host::BytecodeId(filled_digest(8)),
        creation: effect_id(9, 1, 0),
    };
    let c = host::CalleeContext { chain_id: chain(7), authenticated_caller_id: Some(caller) };
    let abi = contract::CalleeContext::try_from_host(c).unwrap();
    let standalone = contract::ApplicationId::try_from_host(caller).unwrap();
    assert_eq!(abi.authenticated_caller_id, Some(standalone));
}

#[test]
fn query_context_holds_only_the_chain() {
    let q = host::QueryContext { chain_id: host::ChainId(counting_digest()) };
    let abi = service::QueryContext::from_host(q);
    assert_eq!(abi.chain_id.part1, 0x0706050403020100);
    assert_eq!(abi.chain_id.part8, 0x3F3E3D3C3B3A3938);
    assert_eq!(abi, service::QueryContext { chain_id: service::HashValue::from_host(counting_digest()) });
}
