//! Schnorr signatures over 32-byte digests, without auxiliary randomness.

use crate::keys::key_view;
use crate::types::Error;
use vstd::prelude::*;

verus! {

/// The signature that `secp256k1` makes over a 32-byte digest with a secret
/// key and no auxiliary randomness, or `None` where the bytes do not form a
/// key pair.
pub uninterp spec fn schnorr_signature(private_key: Seq<u8>, digest: Seq<u8>) -> Option<Seq<u8>>;

/// The signature over a digest, or a signing failure where the key material
/// is malformed.
pub open spec fn signature_of(private_key: Seq<u8>, digest: Seq<u8>) -> Result<Seq<u8>, Error> {
    match schnorr_signature(private_key, digest) {
        Some(s) => Ok(s),
        None => Err(Error::SigningFailure),
    }
}

/// The bytes of a signature or of the failure to make one.
pub open spec fn signature_view(r: Result<Vec<u8>, Error>) -> Result<Seq<u8>, Error> {
    match r {
        Ok(s) => Ok(s@),
        Err(e) => Err(e),
    }
}

/// Calls `Secp256k1::sign_schnorr_no_aux_rand` of `secp256k1` (through
/// `bitcoin`) with the key pair that `Keypair::from_seckey_slice` makes of the
/// key bytes and the message that `Message::from_digest_slice` makes of the
/// digest; `None` where the key bytes are rejected. Trusted: the result is
/// what `schnorr_signature` names, and a signature is 64 bytes long. A digest
/// of another length than 32 is no message, so it is left out.
#[verifier::external_body]
fn schnorr_sign_bytes(private_key: &Vec<u8>, digest: &Vec<u8>) -> (signature: Option<Vec<u8>>)
    requires
        digest@.len() == 32,
    ensures
        key_view(signature) == schnorr_signature(private_key@, digest@),
        signature matches Some(s) ==> s@.len() == 64,
{
    let secp = bitcoin::key::Secp256k1::new();
    let pair = match bitcoin::key::UntweakedKeypair::from_seckey_slice(&secp, private_key) {
        Ok(pair) => pair,
        Err(_) => return None,
    };
    match bitcoin::secp256k1::Message::from_digest_slice(digest) {
        Ok(message) => Some(secp.sign_schnorr_no_aux_rand(&message, &pair).serialize().to_vec()),
        Err(_) => None,
    }
}

/// What signing hands on: the signature, or a signing failure where none was
/// made.
pub fn signature_or_failure(outcome: Option<Vec<u8>>) -> (r: Result<Vec<u8>, Error>)
    ensures
        r == match outcome {
            Some(s) => Ok::<Vec<u8>, Error>(s),
            None => Err(Error::SigningFailure),
        },
{
    match outcome {
        Some(s) => Ok(s),
        None => Err(Error::SigningFailure),
    }
}

/// Signs a 32-byte digest with a private key.
///
/// The digest is signed as it is, without hashing. The nonce comes from the
/// key and the digest alone, so the same key and digest give the same
/// signature.
pub fn sign(private_key: &Vec<u8>, digest: &Vec<u8>) -> (r: Result<Vec<u8>, Error>)
    requires
        digest@.len() == 32,
    ensures
        signature_view(r) == signature_of(private_key@, digest@),
        r matches Ok(s) ==> s@.len() == 64,
{
    signature_or_failure(schnorr_sign_bytes(private_key, digest))
}

} // verus!
