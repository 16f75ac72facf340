//! The requests of the service: provisioning a seed, querying a public key,
//! signing a digest.

use crate::keys::child_private_of;
use crate::keys::child_public_of;
use crate::keys::derive_child_private;
use crate::keys::derive_child_public;
use crate::keys::extended_result_view;
use crate::keys::master_key;
use crate::keys::master_key_of;
use crate::keys::public_key;
use crate::keys::public_key_of;
use crate::path::derivation_path;
use crate::path::segments;
use crate::path::tenant;
use crate::path::tenant_of;
use crate::path::tenant_path;
use crate::signer::sign;
use crate::signer::signature_of;
use crate::store::counted;
use crate::store::provisioned;
use crate::store::seed_of;
use crate::store::State;
use crate::types::Error;
use crate::types::SchnorrKeyIds;
use crate::types::SchnorrPublicKey;
use crate::types::SchnorrPublicKeyReply;
use crate::types::SignWithSchnorr;
use crate::types::SignWithSchnorrReply;
use vstd::prelude::*;

verus! {

/// The seed that is made of what the randomness source gave: its 32 bytes
/// twice. Anything but 32 bytes, or nothing, makes no seed.
pub open spec fn seed_from(fetched: Option<Seq<u8>>) -> Result<Seq<u8>, Error> {
    match fetched {
        Some(random) => if random.len() == 32 {
            Ok(random + random)
        } else {
            Err(Error::RandomnessUnavailable)
        },
        None => Err(Error::RandomnessUnavailable),
    }
}

/// The public key and chain code at `path` below the master key of `seed`.
pub open spec fn public_key_for(seed: Seq<u8>, path: Seq<Seq<u8>>) -> Result<
    (Seq<u8>, Seq<u8>),
    Error,
> {
    match master_key_of(seed) {
        Err(e) => Err(e),
        Ok(master) => match public_key_of(master) {
            Err(e) => Err(e),
            Ok(public) => child_public_of(public, path),
        },
    }
}

/// The private key and chain code at `path` below the master key of `seed`.
pub open spec fn private_key_for(seed: Seq<u8>, path: Seq<Seq<u8>>) -> Result<
    (Seq<u8>, Seq<u8>),
    Error,
> {
    match master_key_of(seed) {
        Err(e) => Err(e),
        Ok(master) => child_private_of(master, path),
    }
}

/// The signature over `digest` by the private key at `path` below the master
/// key of `seed`.
pub open spec fn signature_for(seed: Seq<u8>, path: Seq<Seq<u8>>, digest: Seq<u8>) -> Result<
    Seq<u8>,
    Error,
> {
    match private_key_for(seed, path) {
        Err(e) => Err(e),
        Ok((key, _)) => signature_of(key, digest),
    }
}

/// What a public-key query returns: `NotFound` where the key name has no
/// seed, else the key derived for the tenant and the extra segments.
pub open spec fn public_key_query(
    seeds: Map<Seq<char>, Seq<u8>>,
    name: Seq<char>,
    tenant: Seq<u8>,
    extra: Seq<Seq<u8>>,
) -> Result<(Seq<u8>, Seq<u8>), Error> {
    match seed_of(seeds, name) {
        Err(e) => Err(e),
        Ok(seed) => public_key_for(seed, tenant_path(tenant, extra)),
    }
}

/// The signature that a sign request asks for: `NotFound` where the key name
/// has no seed, else the signature by the key derived for the caller and the
/// extra segments.
pub open spec fn signature_query(
    seeds: Map<Seq<char>, Seq<u8>>,
    name: Seq<char>,
    caller: Seq<u8>,
    extra: Seq<Seq<u8>>,
    digest: Seq<u8>,
) -> Result<Seq<u8>, Error> {
    match seed_of(seeds, name) {
        Err(e) => Err(e),
        Ok(seed) => signature_for(seed, tenant_path(caller, extra), digest),
    }
}

/// The tenant that a public-key query names, if it names one.
pub open spec fn tenant_override(arg: SchnorrPublicKey) -> Option<Seq<u8>> {
    match arg.canister_id {
        Some(id) => Some(id@),
        None => None,
    }
}

/// The bytes of a public-key reply or of the failure to make one.
pub open spec fn public_key_reply_view(r: Result<SchnorrPublicKeyReply, Error>) -> Result<
    (Seq<u8>, Seq<u8>),
    Error,
> {
    match r {
        Ok(reply) => Ok((reply.public_key@, reply.chain_code@)),
        Err(e) => Err(e),
    }
}

/// The bytes of an optional byte string.
pub open spec fn fetched_view(fetched: Option<Vec<u8>>) -> Option<Seq<u8>> {
    match fetched {
        Some(random) => Some(random@),
        None => None,
    }
}

/// Makes a seed of what the randomness source returned: the 32 random bytes,
/// twice in a row. Fails with `RandomnessUnavailable` where the source
/// returned nothing, or not 32 bytes.
pub fn get_random_seed(fetched: &Option<Vec<u8>>) -> (r: Result<[u8; 64], Error>)
    ensures
        match r {
            Ok(seed) => seed_from(fetched_view(*fetched)) == Ok::<Seq<u8>, Error>(seed@),
            Err(e) => seed_from(fetched_view(*fetched)) == Err::<Seq<u8>, Error>(e),
        },
{
    match fetched {
        None => Err(Error::RandomnessUnavailable),
        Some(random) => {
            if random.len() != 32 {
                return Err(Error::RandomnessUnavailable);
            }
            let mut seed: [u8; 64] = [0u8; 64];
            let mut i: usize = 0;
            while i < 32
                invariant
                    i <= 32,
                    random@.len() == 32,
                    forall|j: int| 0 <= j < i ==> seed@[j] == random@[j],
                    forall|j: int| 0 <= j < i ==> seed@[j + 32] == random@[j],
                decreases 32 - i,
            {
                seed[i] = random[i];
                seed[i + 32] = random[i];
                i += 1;
            }
            assert(seed@ =~= random@ + random@);
            Ok(seed)
        },
    }
}

/// Provisions the seed of a declared key with what the randomness source
/// returned, and says whether a seed was written.
///
/// A key that has a seed keeps it. Where the source returned nothing that
/// makes a seed, the call fails with `RandomnessUnavailable` and the key
/// stays as it was.
pub fn init(state: &mut State, key: SchnorrKeyIds, fetched: &Option<Vec<u8>>) -> (r: Result<
    bool,
    Error,
>)
    ensures
        final(state).count() == old(state).count(),
        match seed_from(fetched_view(*fetched)) {
            Ok(seed) => r == Ok::<bool, Error>(!old(state).seeds().contains_key(key.name()))
                && final(state).seeds() == provisioned(old(state).seeds(), key.name(), seed),
            Err(e) => r == Err::<bool, Error>(e) && final(state).seeds() == old(state).seeds(),
        },
{
    match get_random_seed(fetched) {
        Ok(seed) => Ok(state.insert_seed_if_absent(&key.to_key_id(), seed)),
        Err(e) => Err(e),
    }
}

/// Derives the public key and chain code at `path` below the master key of
/// a seed. The private key of the path is never derived.
pub fn derive_public_key(seed: &[u8; 64], path: &Vec<Vec<u8>>) -> (r: Result<
    SchnorrPublicKeyReply,
    Error,
>)
    ensures
        public_key_reply_view(r) == public_key_for(seed@, segments(*path)),
        r matches Ok(reply) ==> reply.public_key@.len() == 33 && reply.chain_code@.len() == 32,
{
    let master = match master_key(seed) {
        Ok(master) => master,
        Err(e) => return Err(e),
    };
    let public = match public_key(&master) {
        Ok(public) => public,
        Err(e) => return Err(e),
    };
    match derive_child_public(&public, path) {
        Ok((public_key, chain_code)) => Ok(SchnorrPublicKeyReply { public_key, chain_code }),
        Err(e) => Err(e),
    }
}

/// Derives the private key and chain code at `path` below the master key of
/// a seed.
///
/// The result is a function of the seed and the path alone: every run on the
/// same seed and path returns the same key and chain code.
pub fn derive_private_key(seed: &[u8; 64], path: &Vec<Vec<u8>>) -> (r: Result<
    (Vec<u8>, Vec<u8>),
    Error,
>)
    ensures
        extended_result_view(r) == private_key_for(seed@, segments(*path)),
        r matches Ok((k, c)) ==> k@.len() == 32 && c@.len() == 32,
{
    match master_key(seed) {
        Ok(master) => derive_child_private(&master, path),
        Err(e) => Err(e),
    }
}

/// Signs a 32-byte digest with the private key at `path` below the master
/// key of a seed.
pub fn derive_signature(seed: &[u8; 64], path: &Vec<Vec<u8>>, digest: &Vec<u8>) -> (r: Result<
    Vec<u8>,
    Error,
>)
    requires
        digest@.len() == 32,
    ensures
        match r {
            Ok(signature) => signature_for(seed@, segments(*path), digest@) == Ok::<Seq<u8>, Error>(
                signature@,
            ),
            Err(e) => signature_for(seed@, segments(*path), digest@) == Err::<Seq<u8>, Error>(e),
        },
        r matches Ok(signature) ==> signature@.len() == 64,
{
    match derive_private_key(seed, path) {
        Ok((key, _)) => sign(&key, digest),
        Err(e) => Err(e),
    }
}

/// Answers a public-key query: the public key and chain code derived from
/// the seed of `arg.key_id` along the tenant and `arg.derivation_path`.
///
/// The tenant is `arg.canister_id` where it is given, else the caller. The
/// state is only read. Fails with `NotFound` where the key name has no seed,
/// before anything is derived, and with `DerivationFailure` where a key on
/// the way is not valid.
pub fn schnorr_public_key(state: &State, caller: &Vec<u8>, arg: SchnorrPublicKey) -> (r: Result<
    SchnorrPublicKeyReply,
    Error,
>)
    ensures
        public_key_reply_view(r) == public_key_query(
            state.seeds(),
            arg.key_id@,
            tenant_of(tenant_override(arg), caller@),
            segments(arg.derivation_path),
        ),
        !state.seeds().contains_key(arg.key_id@) ==> (r matches Err(e) && e == Error::NotFound),
        r matches Ok(reply) ==> reply.public_key@.len() == 33 && reply.chain_code@.len() == 32,
{
    let seed = match state.seed(&arg.key_id) {
        Ok(seed) => seed,
        Err(e) => return Err(e),
    };
    let tenant = tenant(&arg.canister_id, caller);
    let path = derivation_path(&tenant, &arg.derivation_path);
    derive_public_key(&seed, &path)
}

/// Counts a signature and hands it out: adds one to the counter and wraps
/// the signature in a reply. Where the counter cannot be written the
/// signature is dropped and the call fails with `PersistenceFailure`.
pub fn count_signature(state: &mut State, signature: Vec<u8>) -> (r: Result<
    SignWithSchnorrReply,
    Error,
>)
    ensures
        final(state).seeds() == old(state).seeds(),
        final(state).count() == counted(old(state).count() as nat, r is Ok),
        match r {
            Ok(reply) => reply.signature == signature,
            Err(e) => e == Error::PersistenceFailure,
        },
        old(state).count() == u128::MAX ==> r is Err,
{
    match state.increment() {
        Ok(_) => Ok(SignWithSchnorrReply { signature }),
        Err(e) => Err(e),
    }
}

/// Answers a sign request: the signature over the digest `arg.message` by
/// the private key derived from the seed of `arg.key_id` along the caller
/// and `arg.derivation_path`.
///
/// The signer is always the caller. The counter grows by one when, and only
/// when, a signature is returned; the seeds are only read. Fails with
/// `NotFound` where the key name has no seed, before anything is derived;
/// with `DerivationFailure` or `SigningFailure` where a key on the way is
/// not valid; and with `PersistenceFailure` where the signature was made but
/// the counter could not be written.
pub fn sign_with_schnorr(state: &mut State, caller: &Vec<u8>, arg: SignWithSchnorr) -> (r: Result<
    SignWithSchnorrReply,
    Error,
>)
    requires
        arg.message@.len() == 32,
    ensures
        final(state).seeds() == old(state).seeds(),
        final(state).count() == counted(old(state).count() as nat, r is Ok),
        match signature_query(
            old(state).seeds(),
            arg.key_id@,
            caller@,
            segments(arg.derivation_path),
            arg.message@,
        ) {
            Ok(signature) => match r {
                Ok(reply) => reply.signature@ == signature,
                Err(e) => e == Error::PersistenceFailure,
            },
            Err(failure) => r matches Err(e) && e == failure,
        },
        !old(state).seeds().contains_key(arg.key_id@) ==> (r matches Err(e) && e == Error::NotFound),
        old(state).count() == u128::MAX ==> r is Err,
        r matches Ok(reply) ==> reply.signature@.len() == 64,
{
    let seed = match state.seed(&arg.key_id) {
        Ok(seed) => seed,
        Err(e) => return Err(e),
    };
    let path = derivation_path(caller, &arg.derivation_path);
    match derive_signature(&seed, &path, &arg.message) {
        Ok(signature) => count_signature(state, signature),
        Err(e) => Err(e),
    }
}

} // verus!
