//! Extended keys: the master key of a seed, and non-hardened child keys along
//! a derivation path.
//!
//! The curve arithmetic is done by the `bip32`, `bitcoin` and `ic_secp256k1`
//! crates. What they return is not proved here; each result has a name, and
//! the contracts of this module say which name a function returns and on
//! which arguments.

use crate::path::segments;
use crate::types::Error;
use vstd::prelude::*;

verus! {

/// The private key that `bip32` expands a seed into, or `None` where the
/// expansion is not a valid secp256k1 secret key.
pub uninterp spec fn master_private_key(seed: Seq<u8>) -> Option<Seq<u8>>;

/// The compressed SEC1 encoding of the public key of a secret key, as
/// `secp256k1` computes it, or `None` where the bytes are no secret key.
pub uninterp spec fn secp_public_key(private_key: Seq<u8>) -> Option<Seq<u8>>;

/// The public key and chain code that `ic_secp256k1` derives from a public
/// key and a chain code along a path, or `None` where the bytes are no
/// public key.
pub uninterp spec fn derived_public_key(
    public_key: Seq<u8>,
    chain_code: Seq<u8>,
    path: Seq<Seq<u8>>,
) -> Option<(Seq<u8>, Seq<u8>)>;

/// The private key and chain code that `ic_secp256k1` derives from a private
/// key and a chain code along a path, or `None` where the bytes are no
/// private key.
pub uninterp spec fn derived_private_key(
    private_key: Seq<u8>,
    chain_code: Seq<u8>,
    path: Seq<Seq<u8>>,
) -> Option<(Seq<u8>, Seq<u8>)>;

/// The chain code at the root of every derivation: 32 zero bytes.
pub open spec fn root_chain_code() -> Seq<u8> {
    Seq::new(32, |i: int| 0u8)
}

/// The bytes of an optional key.
pub open spec fn key_view(key: Option<Vec<u8>>) -> Option<Seq<u8>> {
    match key {
        Some(k) => Some(k@),
        None => None,
    }
}

/// The bytes of an optional key with its chain code.
pub open spec fn extended_view(key: Option<(Vec<u8>, Vec<u8>)>) -> Option<(Seq<u8>, Seq<u8>)> {
    match key {
        Some((k, c)) => Some((k@, c@)),
        None => None,
    }
}

/// The master key of a seed: the expansion of the seed, or a derivation
/// failure where the expansion is no key.
pub open spec fn master_key_of(seed: Seq<u8>) -> Result<Seq<u8>, Error> {
    match master_private_key(seed) {
        Some(k) => Ok(k),
        None => Err(Error::DerivationFailure),
    }
}

/// The public key of a private key, or a derivation failure where the bytes
/// are no private key.
pub open spec fn public_key_of(private_key: Seq<u8>) -> Result<Seq<u8>, Error> {
    match secp_public_key(private_key) {
        Some(k) => Ok(k),
        None => Err(Error::DerivationFailure),
    }
}

/// The child of a master public key along a path, from the root chain code.
pub open spec fn child_public_of(master_public_key: Seq<u8>, path: Seq<Seq<u8>>) -> Result<
    (Seq<u8>, Seq<u8>),
    Error,
> {
    match derived_public_key(master_public_key, root_chain_code(), path) {
        Some(k) => Ok(k),
        None => Err(Error::DerivationFailure),
    }
}

/// The child of a master private key along a path, from the root chain code.
pub open spec fn child_private_of(master_private_key: Seq<u8>, path: Seq<Seq<u8>>) -> Result<
    (Seq<u8>, Seq<u8>),
    Error,
> {
    match derived_private_key(master_private_key, root_chain_code(), path) {
        Some(k) => Ok(k),
        None => Err(Error::DerivationFailure),
    }
}

/// The bytes of a key or of the failure to get one.
pub open spec fn key_result_view(r: Result<Vec<u8>, Error>) -> Result<Seq<u8>, Error> {
    match r {
        Ok(k) => Ok(k@),
        Err(e) => Err(e),
    }
}

/// The bytes of a key with its chain code, or of the failure to get one.
pub open spec fn extended_result_view(r: Result<(Vec<u8>, Vec<u8>), Error>) -> Result<
    (Seq<u8>, Seq<u8>),
    Error,
> {
    match r {
        Ok((k, c)) => Ok((k@, c@)),
        Err(e) => Err(e),
    }
}

/// Calls `bip32::XPrv::new` on the seed and returns the bytes of the root
/// private key, `None` where `bip32` reports an error. Trusted: the result is
/// what `master_private_key` names, and a key is 32 bytes long.
#[verifier::external_body]
fn master_key_bytes(seed: &[u8; 64]) -> (key: Option<Vec<u8>>)
    ensures
        key_view(key) == master_private_key(seed@),
        key matches Some(k) ==> k@.len() == 32,
{
    match bip32::XPrv::new(bip32::Seed::new(*seed)) {
        Ok(root) => Some(root.private_key().to_bytes().to_vec()),
        Err(_) => None,
    }
}

/// Calls `Keypair::from_seckey_slice` of `secp256k1` (through `bitcoin`) and
/// serializes the pair's public key, `None` where the bytes are rejected.
/// Trusted: the result is what `secp_public_key` names, and a compressed
/// public key is 33 bytes long.
#[verifier::external_body]
fn public_key_bytes(private_key: &Vec<u8>) -> (key: Option<Vec<u8>>)
    ensures
        key_view(key) == secp_public_key(private_key@),
        key matches Some(k) ==> k@.len() == 33,
{
    let secp = bitcoin::key::Secp256k1::new();
    match bitcoin::key::UntweakedKeypair::from_seckey_slice(&secp, private_key) {
        Ok(pair) => Some(pair.public_key().serialize().to_vec()),
        Err(_) => None,
    }
}

/// Calls `ic_secp256k1::PublicKey::derive_subkey_with_chain_code` on the key
/// that `deserialize_sec1` reads from the bytes, and serializes the derived
/// key in compressed form; `None` where the bytes are rejected. Trusted: the
/// result is what `derived_public_key` names, and a chain code is 32 bytes
/// long and a compressed public key 33.
#[verifier::external_body]
fn derive_public_bytes(public_key: &Vec<u8>, chain_code: &[u8; 32], path: &Vec<Vec<u8>>) -> (key:
    Option<(Vec<u8>, Vec<u8>)>)
    ensures
        extended_view(key) == derived_public_key(public_key@, chain_code@, segments(*path)),
        key matches Some((k, c)) ==> k@.len() == 33 && c@.len() == 32,
{
    let parent = match ic_secp256k1::PublicKey::deserialize_sec1(public_key) {
        Ok(parent) => parent,
        Err(_) => return None,
    };
    let indexes = path.iter().map(|s| ic_secp256k1::DerivationIndex(s.clone())).collect();
    let path = ic_secp256k1::DerivationPath::new(indexes);
    let (child, code) = parent.derive_subkey_with_chain_code(&path, chain_code);
    Some((child.serialize_sec1(true), code.to_vec()))
}

/// Calls `ic_secp256k1::PrivateKey::derive_subkey_with_chain_code` on the key
/// that `deserialize_sec1` reads from the bytes, and serializes the derived
/// key; `None` where the bytes are rejected. Trusted: the result is what
/// `derived_private_key` names, and key and chain code are 32 bytes long.
#[verifier::external_body]
fn derive_private_bytes(private_key: &Vec<u8>, chain_code: &[u8; 32], path: &Vec<Vec<u8>>) -> (key:
    Option<(Vec<u8>, Vec<u8>)>)
    ensures
        extended_view(key) == derived_private_key(private_key@, chain_code@, segments(*path)),
        key matches Some((k, c)) ==> k@.len() == 32 && c@.len() == 32,
{
    let parent = match ic_secp256k1::PrivateKey::deserialize_sec1(private_key) {
        Ok(parent) => parent,
        Err(_) => return None,
    };
    let indexes = path.iter().map(|s| ic_secp256k1::DerivationIndex(s.clone())).collect();
    let path = ic_secp256k1::DerivationPath::new(indexes);
    let (child, code) = parent.derive_subkey_with_chain_code(&path, chain_code);
    Some((child.serialize_sec1(), code.to_vec()))
}

/// What a step that yields a key hands on: the key, or a derivation failure
/// where the step yielded none.
pub fn key_or_failure(outcome: Option<Vec<u8>>) -> (r: Result<Vec<u8>, Error>)
    ensures
        r == match outcome {
            Some(k) => Ok::<Vec<u8>, Error>(k),
            None => Err(Error::DerivationFailure),
        },
{
    match outcome {
        Some(k) => Ok(k),
        None => Err(Error::DerivationFailure),
    }
}

/// What a step that yields a key with its chain code hands on: the pair, or a
/// derivation failure where the step yielded none.
pub fn extended_key_or_failure(outcome: Option<(Vec<u8>, Vec<u8>)>) -> (r: Result<
    (Vec<u8>, Vec<u8>),
    Error,
>)
    ensures
        r == match outcome {
            Some(k) => Ok::<(Vec<u8>, Vec<u8>), Error>(k),
            None => Err(Error::DerivationFailure),
        },
{
    match outcome {
        Some(k) => Ok(k),
        None => Err(Error::DerivationFailure),
    }
}

/// The root chain code.
pub fn zero_chain_code() -> (code: [u8; 32])
    ensures
        code@ == root_chain_code(),
{
    let code: [u8; 32] = [0u8; 32];
    assert(code@ =~= root_chain_code());
    code
}

/// Expands a seed into the private key at the root of its key tree.
///
/// The seed is the only input: the same seed gives the same key.
pub fn master_key(seed: &[u8; 64]) -> (r: Result<Vec<u8>, Error>)
    ensures
        key_result_view(r) == master_key_of(seed@),
        r matches Ok(k) ==> k@.len() == 32,
{
    key_or_failure(master_key_bytes(seed))
}

/// The compressed public key of a private key.
pub fn public_key(private_key: &Vec<u8>) -> (r: Result<Vec<u8>, Error>)
    ensures
        key_result_view(r) == public_key_of(private_key@),
        r matches Ok(k) ==> k@.len() == 33,
{
    key_or_failure(public_key_bytes(private_key))
}

/// Derives the public key and chain code at `path` below a master public
/// key, one non-hardened step per segment, starting from the root chain
/// code. No private key is touched.
pub fn derive_child_public(master_public_key: &Vec<u8>, path: &Vec<Vec<u8>>) -> (r: Result<
    (Vec<u8>, Vec<u8>),
    Error,
>)
    ensures
        extended_result_view(r) == child_public_of(master_public_key@, segments(*path)),
        r matches Ok((k, c)) ==> k@.len() == 33 && c@.len() == 32,
{
    let code = zero_chain_code();
    extended_key_or_failure(derive_public_bytes(master_public_key, &code, path))
}

/// Derives the private key and chain code at `path` below a master private
/// key, one non-hardened step per segment, starting from the root chain
/// code.
pub fn derive_child_private(master_private_key: &Vec<u8>, path: &Vec<Vec<u8>>) -> (r: Result<
    (Vec<u8>, Vec<u8>),
    Error,
>)
    ensures
        extended_result_view(r) == child_private_of(master_private_key@, segments(*path)),
        r matches Ok((k, c)) ==> k@.len() == 32 && c@.len() == 32,
{
    let code = zero_chain_code();
    extended_key_or_failure(derive_private_bytes(master_private_key, &code, path))
}

} // verus!
