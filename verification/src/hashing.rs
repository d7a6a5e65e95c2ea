//! The hash that a permit's signature is made over.

use vstd::prelude::*;
use sha2::Digest;
use crate::params::PermitParamPartial;
use crate::types::AccountAddress;

verus! {

/// The SHA-256 digest of a byte string.
pub uninterp spec fn sha2_256(data: Seq<u8>) -> Seq<u8>;

/// Hashes with `sha2::Sha256::digest`. Trusted: the result is the SHA-256
/// digest of `data`, which depends on the bytes of `data` alone.
#[verifier::external_body]
pub(crate) fn hash_sha2_256(data: &[u8]) -> (digest: [u8; 32])
    ensures
        digest@ == sha2_256(data@),
{
    sha2::Sha256::digest(data).into()
}

/// What is hashed for a message that `signer` signs: the signer's 32 bytes,
/// eight zero bytes, then the message as it was sent. The zeros stand where a
/// transaction would carry the account's nonce, which is never zero, so that
/// a signed message cannot pass for a signed transaction.
pub open spec fn message_hash_preimage(signer: AccountAddress, message: Seq<u8>) -> Seq<u8> {
    signer.0@ + Seq::new(8, |i: int| 0u8) + message
}

/// Appends the bytes of a slice to a buffer.
pub fn append_bytes(out: &mut Vec<u8>, bytes: &[u8])
    ensures
        final(out)@ == old(out)@ + bytes@,
{
    let ghost head = out@;
    let mut j: usize = 0;
    assert(head + bytes@.take(0) =~= head);
    while j < bytes.len()
        invariant
            j <= bytes@.len(),
            out@ == head + bytes@.take(j as int),
        decreases bytes@.len() - j,
    {
        out.push(bytes[j]);
        assert(head + bytes@.take(j + 1) =~= (head + bytes@.take(j as int)).push(bytes@[j as int]));
        j += 1;
    }
    assert(bytes@.take(j as int) =~= bytes@);
}

/// Builds [`message_hash_preimage`].
pub fn build_message_hash_preimage(signer: &AccountAddress, message_bytes: &[u8]) -> (preimage:
    Vec<u8>)
    ensures
        preimage@ == message_hash_preimage(*signer, message_bytes@),
{
    let zeros: [u8; 8] = [0u8; 8];
    let mut preimage: Vec<u8> = Vec::new();
    append_bytes(&mut preimage, signer.0.as_slice());
    append_bytes(&mut preimage, zeros.as_slice());
    append_bytes(&mut preimage, message_bytes);
    assert(zeros@ =~= Seq::new(8, |i: int| 0u8));
    assert(preimage@ =~= message_hash_preimage(*signer, message_bytes@));
    preimage
}

/// The hash that the signer of a permit signs: the SHA-256 digest of
/// [`message_hash_preimage`]. `message_bytes` are the bytes of the permit
/// that follow its signatures and its signer.
pub fn compute_message_hash(param: &PermitParamPartial, message_bytes: &[u8]) -> (hash: [u8; 32])
    ensures
        hash@ == sha2_256(message_hash_preimage(param.signer, message_bytes@)),
{
    let preimage = build_message_hash_preimage(&param.signer, message_bytes);
    hash_sha2_256(preimage.as_slice())
}

} // verus!
