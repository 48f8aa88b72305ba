use anchor_lang::solana_program::hash::hash;
use anchor_lang::solana_program::keccak::hashv;
use compressed_state::address::{derive_asset_id, u32_le_bytes, PROGRAM_ID};
use compressed_state::error::ErrorCode;
use compressed_state::pubkey::{deserialize, serialize, Pubkey, PubkeyTextError};
use compressed_state::state::{
    emittable_bytes, get_asset_data, has_state_discriminator, hash_state, State,
    STATE_DISCRIMINATOR,
};
use std::str::FromStr;

const PROGRAM: &str = "Fg6PaFpoGXkYsidMpWTK6W2BeZ7FEfcYkg476zPFsLnS";

const ASSET_AT_5: [u8; 32] = [
    85, 57, 49, 74, 25, 26, 183, 56, 11, 228, 15, 151, 55, 246, 55, 21, 193, 178, 241, 239, 58,
    157, 142, 15, 189, 83, 88, 170, 4, 165, 2, 217,
];

fn counting(from: u8) -> Pubkey {
    let mut bytes = [0u8; 32];
    for (i, byte) in bytes.iter_mut().enumerate() {
        *byte = from + i as u8;
    }
    Pubkey(bytes)
}

fn sample() -> State {
    State { asset_id: counting(1), owner: counting(101) }
}

#[test]
fn discriminator_is_the_hash_of_the_type_name() {
    let digest = hash(b"account:State").to_bytes();
    assert_eq!(STATE_DISCRIMINATOR, digest[..8]);
    assert_eq!(STATE_DISCRIMINATOR, [216, 146, 107, 94, 104, 75, 182, 177]);
}

#[test]
fn program_id_is_the_declared_address() {
    assert_eq!(serialize(&Pubkey(PROGRAM_ID)), PROGRAM);
    assert_eq!(deserialize(PROGRAM), Ok(Pubkey(PROGRAM_ID)));
    assert_eq!(anchor_lang::prelude::Pubkey::from_str(PROGRAM).unwrap().to_bytes(), PROGRAM_ID);
}

#[test]
fn keys_are_equal_when_their_bytes_are() {
    assert_eq!(counting(1), counting(1));
    assert_ne!(counting(1), counting(2));
    let mut last = counting(1);
    last.0[31] ^= 1;
    assert_ne!(counting(1), last);
    assert!(counting(1) == counting(1));
    assert!(counting(1) != last);
}

#[test]
fn key_is_written_as_base58() {
    assert_eq!(serialize(&counting(1)), "4wBqpZM9xaSheZzJSMawUKKwhdpChKbZ5eu5ky4Vigw");
    assert_eq!(serialize(&counting(101)), "7ppk9w8NHnH6ehajvJyU31VcMafwZ3ybRtJWumSyD2wd");
    assert_eq!(serialize(&Pubkey([0u8; 32])), "11111111111111111111111111111111");
}

#[test]
fn key_is_read_from_base58() {
    assert_eq!(deserialize("4wBqpZM9xaSheZzJSMawUKKwhdpChKbZ5eu5ky4Vigw"), Ok(counting(1)));
    assert_eq!(deserialize("11111111111111111111111111111111"), Ok(Pubkey([0u8; 32])));
    for from in [0u8, 1, 77, 200] {
        assert_eq!(deserialize(&serialize(&counting(from))), Ok(counting(from)));
    }
}

#[test]
fn text_that_is_no_key_is_refused() {
    assert_eq!(deserialize("0OIl"), Err(PubkeyTextError::InvalidBase58));
    assert_eq!(deserialize("not base58!"), Err(PubkeyTextError::InvalidBase58));
    assert_eq!(deserialize("é"), Err(PubkeyTextError::InvalidBase58));
    assert_eq!(deserialize(""), Err(PubkeyTextError::WrongLength));
    assert_eq!(deserialize("he11owor1d"), Err(PubkeyTextError::WrongLength));
    assert_eq!(
        deserialize("111111111111111111111111111111111"),
        Err(PubkeyTextError::WrongLength)
    );
}

#[test]
fn key_is_made_of_32_bytes_only() {
    assert_eq!(Pubkey::from_bytes(&counting(9).0), Ok(counting(9)));
    assert_eq!(Pubkey::from_bytes(&[1u8; 31]), Err(PubkeyTextError::WrongLength));
    assert_eq!(Pubkey::from_bytes(&[1u8; 33]), Err(PubkeyTextError::WrongLength));
    assert_eq!(Pubkey::from_bytes(&[]), Err(PubkeyTextError::WrongLength));
}

#[test]
fn number_is_written_little_endian() {
    assert_eq!(u32_le_bytes(5), [5, 0, 0, 0]);
    assert_eq!(u32_le_bytes(0x1234_5678), [0x78, 0x56, 0x34, 0x12]);
    assert_eq!(u32_le_bytes(u32::MAX), [0xFF; 4]);
    for value in [0u32, 1, 255, 256, 65_535, 65_536, 16_777_216, 0xDEAD_BEEF] {
        assert_eq!(u32_le_bytes(value), value.to_le_bytes());
    }
}

#[test]
fn asset_id_is_the_program_address_of_tree_and_index() {
    let tree = Pubkey([0x54; 32]);
    assert_eq!(derive_asset_id(&tree, 5), Some(Pubkey(ASSET_AT_5)));
    let program = anchor_lang::prelude::Pubkey::new_from_array(PROGRAM_ID);
    for index in [0u32, 1, 5, 256, u32::MAX] {
        let (expected, _) = anchor_lang::prelude::Pubkey::find_program_address(
            &[&tree.0, &index.to_le_bytes()],
            &program,
        );
        assert_eq!(derive_asset_id(&tree, index), Some(Pubkey(expected.to_bytes())));
    }
    assert_ne!(derive_asset_id(&tree, 5), derive_asset_id(&tree, 6));
    assert_ne!(derive_asset_id(&tree, 5), derive_asset_id(&Pubkey([0x55; 32]), 5));
    assert_ne!(derive_asset_id(&tree, 5), Some(tree));
}

#[test]
fn record_is_encoded_as_identifier_then_owner() {
    let bytes = sample().to_bytes();
    assert_eq!(bytes.len(), 64);
    assert_eq!(bytes[..32], counting(1).0);
    assert_eq!(bytes[32..], counting(101).0);
}

#[test]
fn record_is_decoded_from_its_encoding() {
    let decoded = State::from_bytes(&sample().to_bytes()).unwrap();
    assert_eq!(decoded.asset_id, counting(1));
    assert_eq!(decoded.owner, counting(101));
    assert_eq!(State::from_bytes(&[0u8; 63]).unwrap_err(), ErrorCode::DecodeError);
    assert_eq!(State::from_bytes(&[0u8; 65]).unwrap_err(), ErrorCode::DecodeError);
    assert_eq!(State::from_bytes(&[]).unwrap_err(), ErrorCode::DecodeError);
}

#[test]
fn emitted_bytes_carry_the_tag_in_front() {
    let bytes = emittable_bytes(&sample()).unwrap();
    assert_eq!(bytes.len(), 72);
    assert_eq!(bytes[..8], STATE_DISCRIMINATOR);
    assert_eq!(bytes[8..], sample().to_bytes()[..]);
    assert!(has_state_discriminator(&bytes));
}

#[test]
fn leaf_is_the_keccak_digest_of_the_tagged_encoding() {
    let expected: [u8; 32] = [
        182, 84, 75, 26, 212, 222, 250, 45, 193, 3, 253, 52, 166, 76, 28, 243, 171, 101, 175, 248,
        50, 159, 166, 144, 65, 83, 66, 222, 63, 51, 15, 109,
    ];
    assert_eq!(hash_state(&sample()), Ok(expected));
    let payload = emittable_bytes(&sample()).unwrap();
    assert_eq!(hash_state(&sample()).unwrap(), hashv(&[&payload]).to_bytes());
}

#[test]
fn leaf_of_a_record_is_not_the_deleted_leaf() {
    let records = [
        sample(),
        State { asset_id: Pubkey([0u8; 32]), owner: Pubkey([0u8; 32]) },
        State { asset_id: Pubkey([0xFF; 32]), owner: Pubkey([0xFF; 32]) },
        State { asset_id: Pubkey(ASSET_AT_5), owner: Pubkey([0x4F; 32]) },
        State { asset_id: counting(101), owner: counting(1) },
    ];
    for record in records {
        assert_ne!(hash_state(&record).unwrap(), [0u8; 32]);
    }
    assert_ne!(hash_state(&records[0]), hash_state(&records[4]));
}

#[test]
fn tag_is_recognised_at_the_front_only() {
    assert!(has_state_discriminator(&STATE_DISCRIMINATOR));
    assert!(!has_state_discriminator(&STATE_DISCRIMINATOR[..7]));
    assert!(!has_state_discriminator(&[]));
    let mut shifted = vec![0u8];
    shifted.extend_from_slice(&STATE_DISCRIMINATOR);
    assert!(!has_state_discriminator(&shifted));
    for i in 0..8 {
        let mut other = STATE_DISCRIMINATOR;
        other[i] ^= 0x80;
        assert!(!has_state_discriminator(&other));
    }
}

#[test]
fn record_is_shown_as_json() {
    let expected = "{\"asset_id\":\"4wBqpZM9xaSheZzJSMawUKKwhdpChKbZ5eu5ky4Vigw\",\
                    \"owner\":\"7ppk9w8NHnH6ehajvJyU31VcMafwZ3ybRtJWumSyD2wd\"}";
    assert_eq!(sample().to_json(), expected);
    let parsed: serde_json::Value = serde_json::from_str(&sample().to_json()).unwrap();
    assert_eq!(parsed["asset_id"], "4wBqpZM9xaSheZzJSMawUKKwhdpChKbZ5eu5ky4Vigw");
    assert_eq!(parsed["owner"], "7ppk9w8NHnH6ehajvJyU31VcMafwZ3ybRtJWumSyD2wd");
    assert_eq!(parsed.as_object().unwrap().len(), 2);
}

#[test]
fn query_shows_the_record_in_a_tagged_blob() {
    let blob = emittable_bytes(&sample()).unwrap();
    assert_eq!(get_asset_data(&blob), Ok(sample().to_json()));
    assert_eq!(
        get_asset_data(&blob).unwrap(),
        "{\"asset_id\":\"4wBqpZM9xaSheZzJSMawUKKwhdpChKbZ5eu5ky4Vigw\",\
         \"owner\":\"7ppk9w8NHnH6ehajvJyU31VcMafwZ3ybRtJWumSyD2wd\"}"
    );
}

#[test]
fn query_of_another_type_is_empty() {
    let mut blob = emittable_bytes(&sample()).unwrap();
    blob[0] ^= 1;
    assert_eq!(get_asset_data(&blob), Ok(String::new()));
    assert_eq!(get_asset_data(&[9u8; 8]), Ok(String::new()));
    assert_eq!(get_asset_data(&[9u8; 100]), Ok(String::new()));
    assert_eq!(get_asset_data(&STATE_DISCRIMINATOR[..7]), Ok(String::new()));
    assert_eq!(get_asset_data(&[]), Ok(String::new()));
}

#[test]
fn query_of_a_tagged_blob_that_holds_no_record_fails() {
    let blob = emittable_bytes(&sample()).unwrap();
    assert_eq!(get_asset_data(&blob[..71]), Err(ErrorCode::DecodeError));
    assert_eq!(get_asset_data(&blob[..8]), Err(ErrorCode::DecodeError));
    let mut long = blob.clone();
    long.push(0);
    assert_eq!(get_asset_data(&long), Err(ErrorCode::DecodeError));
}

#[test]
fn query_twice_gives_the_same_answer() {
    let blob = emittable_bytes(&sample()).unwrap();
    let before = blob.clone();
    assert_eq!(get_asset_data(&blob), get_asset_data(&blob));
    assert_eq!(blob, before);
    assert_eq!(get_asset_data(&[1, 2, 3]), get_asset_data(&[1, 2, 3]));
    assert_eq!(get_asset_data(&blob[..40]), get_asset_data(&blob[..40]));
}
