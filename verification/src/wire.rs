//! The bytes of a permit's message, as they are signed.

use vstd::prelude::*;
use vstd::bytes::{spec_u16_to_le_bytes, spec_u64_to_le_bytes, u16_to_le_bytes, u64_to_le_bytes};
use vstd::utf8::encode_utf8;
use crate::hashing::{
    append_bytes, build_message_hash_preimage, hash_sha2_256, message_hash_preimage, sha2_256,
};
use crate::params::PermitMessage;
use crate::types::AccountAddress;

verus! {

/// Both the entrypoint's name and the payload are short enough for the two
/// bytes that announce their lengths.
pub open spec fn fits_the_wire(message: PermitMessage) -> bool {
    encode_utf8(message.entry_point@).len() <= u16::MAX && message.payload@.len() <= u16::MAX
}

/// The bytes of a message: the contract's index and subindex, the nonce and
/// the expiry, each as eight bytes, the least significant first; the
/// entrypoint's name and the payload, each behind its length in two bytes,
/// the less significant first.
pub open spec fn permit_message_bytes(message: PermitMessage) -> Seq<u8> {
    spec_u64_to_le_bytes(message.contract_address.index) + spec_u64_to_le_bytes(
        message.contract_address.subindex,
    ) + spec_u64_to_le_bytes(message.nonce) + spec_u64_to_le_bytes(message.timestamp)
        + spec_u16_to_le_bytes(encode_utf8(message.entry_point@).len() as u16) + encode_utf8(
        message.entry_point@,
    ) + spec_u16_to_le_bytes(message.payload@.len() as u16) + message.payload@
}

/// Writes a message as [`permit_message_bytes`], where it
/// [fits](fits_the_wire).
pub fn serialize_permit_message(message: &PermitMessage) -> (r: Option<Vec<u8>>)
    ensures
        match r {
            Some(bytes) => fits_the_wire(*message) && bytes@ == permit_message_bytes(*message),
            None => !fits_the_wire(*message),
        },
{
    let name: &[u8] = message.entry_point.as_str().as_bytes();
    if name.len() > 65535 || message.payload.len() > 65535 {
        return None;
    }
    let mut out: Vec<u8> = Vec::new();
    let mut index = u64_to_le_bytes(message.contract_address.index);
    out.append(&mut index);
    let mut subindex = u64_to_le_bytes(message.contract_address.subindex);
    out.append(&mut subindex);
    let mut nonce = u64_to_le_bytes(message.nonce);
    out.append(&mut nonce);
    let mut timestamp = u64_to_le_bytes(message.timestamp);
    out.append(&mut timestamp);
    let mut name_len = u16_to_le_bytes(name.len() as u16);
    out.append(&mut name_len);
    append_bytes(&mut out, name);
    let mut payload_len = u16_to_le_bytes(message.payload.len() as u16);
    out.append(&mut payload_len);
    append_bytes(&mut out, message.payload.as_slice());
    assert(out@ =~= permit_message_bytes(*message));
    Some(out)
}

/// The hash that `signer` signs to permit `message`: the SHA-256 digest of
/// the signer's 32 bytes, eight zero bytes and the bytes of the message.
/// `None` where the message does not [fit](fits_the_wire).
pub fn permit_message_hash(signer: &AccountAddress, message: &PermitMessage) -> (r: Option<
    [u8; 32],
>)
    ensures
        match r {
            Some(hash) => fits_the_wire(*message) && hash@ == sha2_256(
                message_hash_preimage(*signer, permit_message_bytes(*message)),
            ),
            None => !fits_the_wire(*message),
        },
{
    match serialize_permit_message(message) {
        Some(bytes) => {
            let preimage = build_message_hash_preimage(signer, bytes.as_slice());
            Some(hash_sha2_256(preimage.as_slice()))
        },
        None => None,
    }
}

} // verus!
