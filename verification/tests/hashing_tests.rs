use concordium_std::collections::BTreeMap;
use concordium_std::AccountSignatures;
use liquid_staking::hashing::{append_bytes, build_message_hash_preimage, compute_message_hash};
use liquid_staking::params::{PermitMessage, PermitParamPartial};
use liquid_staking::types::{AccountAddress, ContractAddress};
use liquid_staking::wire::{permit_message_hash, serialize_permit_message};
use sha2::{Digest, Sha256};

fn signer_bytes() -> [u8; 32] {
    let mut bytes = [0u8; 32];
    let mut i = 0;
    while i < 32 {
        bytes[i] = (i as u8) * 3 + 1;
        i += 1;
    }
    bytes
}

fn partial(signer: AccountAddress) -> PermitParamPartial {
    PermitParamPartial { signature: AccountSignatures { sigs: BTreeMap::new() }, signer }
}

fn sample_message() -> PermitMessage {
    PermitMessage {
        contract_address: ContractAddress { index: 0x0102_0304_0506_0708, subindex: 9 },
        nonce: 3,
        timestamp: 1_700_000_000_123,
        entry_point: "unstake".to_string(),
        payload: vec![0x80, 0xB5, 0x18],
    }
}

fn sample_bytes() -> Vec<u8> {
    let mut expected: Vec<u8> = vec![];
    expected.extend_from_slice(&[8, 7, 6, 5, 4, 3, 2, 1]);
    expected.extend_from_slice(&[9, 0, 0, 0, 0, 0, 0, 0]);
    expected.extend_from_slice(&[3, 0, 0, 0, 0, 0, 0, 0]);
    expected.extend_from_slice(&1_700_000_000_123u64.to_le_bytes());
    expected.extend_from_slice(&[7, 0]);
    expected.extend_from_slice(b"unstake");
    expected.extend_from_slice(&[3, 0]);
    expected.extend_from_slice(&[0x80, 0xB5, 0x18]);
    expected
}

#[test]
fn preimage_is_signer_then_eight_zeros_then_message() {
    let signer = AccountAddress(signer_bytes());
    let preimage = build_message_hash_preimage(&signer, &[0xAA, 0xBB, 0xCC]);
    assert_eq!(preimage.len(), 43);
    assert_eq!(&preimage[0..32], &signer_bytes()[..]);
    assert_eq!(&preimage[32..40], &[0u8; 8][..]);
    assert_eq!(&preimage[40..], &[0xAA, 0xBB, 0xCC][..]);
    // An empty message leaves the forty bytes in front.
    assert_eq!(build_message_hash_preimage(&signer, &[]).len(), 40);
}

#[test]
fn message_hash_is_sha256_of_the_preimage() {
    let signer = AccountAddress(signer_bytes());
    let message = sample_bytes();
    let mut hasher = Sha256::new();
    hasher.update(signer_bytes());
    hasher.update([0u8; 8]);
    hasher.update(&message);
    let expected: [u8; 32] = hasher.finalize().into();
    assert_eq!(compute_message_hash(&partial(signer), &message), expected);
    // It is a hash of the input, not the input.
    assert_ne!(&expected[..], &message[0..32]);
}

#[test]
fn message_hash_of_known_input() {
    // SHA-256 of forty zero bytes.
    let hash = compute_message_hash(&partial(AccountAddress([0u8; 32])), &[]);
    let expected: [u8; 32] = Sha256::digest([0u8; 40]).into();
    assert_eq!(hash, expected);
    let known: [u8; 32] = [
        0x2c, 0x34, 0xce, 0x1d, 0xf2, 0x3b, 0x83, 0x8c, 0x5a, 0xbf, 0x2a, 0x7f, 0x64, 0x37, 0xcc, 0xa3, 0xd3, 0x06, 0x7e, 0xd5, 0x09, 0xff, 0x25, 0xf1, 0x1d, 0xf6, 0xb1, 0x1b, 0x58, 0x2b, 0x51, 0xeb,
    ];
    assert_eq!(hash, known);
}

#[test]
fn message_hash_depends_on_signer_and_message() {
    let a = AccountAddress([1u8; 32]);
    let b = AccountAddress([2u8; 32]);
    let h = compute_message_hash(&partial(a), &[1, 2, 3]);
    assert_ne!(h, compute_message_hash(&partial(b), &[1, 2, 3]));
    assert_ne!(h, compute_message_hash(&partial(a), &[1, 2, 4]));
    assert_eq!(h, compute_message_hash(&partial(a), &[1, 2, 3]));
}

#[test]
fn permit_message_is_written_field_by_field() {
    assert_eq!(serialize_permit_message(&sample_message()), Some(sample_bytes()));
}

#[test]
fn permit_message_bytes_agree_with_the_platform_encoding() {
    let message = sample_message();
    let mut expected: Vec<u8> = vec![];
    expected.extend(concordium_std::to_bytes(&concordium_std::ContractAddress::new(
        message.contract_address.index,
        message.contract_address.subindex,
    )));
    expected.extend(concordium_std::to_bytes(&message.nonce));
    expected.extend(concordium_std::to_bytes(&concordium_std::Timestamp::from_timestamp_millis(
        message.timestamp,
    )));
    let name = concordium_std::OwnedEntrypointName::new(message.entry_point.clone()).unwrap();
    expected.extend(concordium_std::to_bytes(&name));
    expected.extend(concordium_std::to_bytes(&(message.payload.len() as u16)));
    expected.extend_from_slice(&message.payload);
    assert_eq!(serialize_permit_message(&message), Some(expected));
}

#[test]
fn permit_message_with_empty_name_and_payload() {
    let message = PermitMessage {
        contract_address: ContractAddress { index: 0, subindex: 0 },
        nonce: u64::MAX,
        timestamp: 0,
        entry_point: String::new(),
        payload: vec![],
    };
    let bytes = serialize_permit_message(&message).unwrap();
    assert_eq!(bytes.len(), 36);
    assert_eq!(&bytes[16..24], &[0xFF; 8][..]);
    assert_eq!(&bytes[32..36], &[0, 0, 0, 0][..]);
}

#[test]
fn permit_message_that_does_not_fit_is_not_written() {
    let mut message = sample_message();
    message.payload = vec![0u8; 65_535];
    let bytes = serialize_permit_message(&message).unwrap();
    assert_eq!(bytes.len(), 32 + 2 + 7 + 2 + 65_535);
    assert_eq!(&bytes[41..43], &[0xFF, 0xFF][..]);
    message.payload = vec![0u8; 65_536];
    assert_eq!(serialize_permit_message(&message), None);
    assert_eq!(permit_message_hash(&AccountAddress([0u8; 32]), &message), None);
    let mut long_name = sample_message();
    long_name.entry_point = "a".repeat(65_536);
    assert_eq!(serialize_permit_message(&long_name), None);
}

#[test]
fn permit_message_hash_is_the_hash_of_its_bytes() {
    let signer = AccountAddress(signer_bytes());
    let message = sample_message();
    let mut preimage: Vec<u8> = vec![];
    preimage.extend_from_slice(&signer_bytes());
    preimage.extend_from_slice(&[0u8; 8]);
    preimage.extend_from_slice(&sample_bytes());
    let expected: [u8; 32] = Sha256::digest(&preimage).into();
    assert_eq!(permit_message_hash(&signer, &message), Some(expected));
    // The same as hashing the bytes that follow signature and signer in a permit.
    assert_eq!(
        permit_message_hash(&signer, &message),
        Some(compute_message_hash(&partial(signer), &sample_bytes()))
    );
}

#[test]
fn append_bytes_adds_at_the_end() {
    let mut out = vec![1u8, 2];
    append_bytes(&mut out, &[3, 4, 5]);
    append_bytes(&mut out, &[]);
    assert_eq!(out, vec![1, 2, 3, 4, 5]);
}
