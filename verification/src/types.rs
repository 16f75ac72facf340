//! Key names, requests, replies and errors.

use vstd::prelude::*;

verus! {

broadcast use vstd::string::to_string_from_display_ensures_for_str;

/// Why a request was rejected.
#[derive(Clone, Copy, Debug, PartialEq, Eq, Structural)]
pub enum Error {
    /// No seed is stored under the key name.
    NotFound,
    /// The randomness source gave nothing that makes a seed.
    RandomnessUnavailable,
    /// A key along the derivation was not a valid key.
    DerivationFailure,
    /// The derived key material does not form a key pair.
    SigningFailure,
    /// The counter or the seed store could not commit a write.
    PersistenceFailure,
}

/// The name of one root secret.
#[derive(Clone, Debug, PartialEq, Eq, PartialOrd, Ord)]
pub struct SchnorrKeyId {
    name: String,
}

impl View for SchnorrKeyId {
    type V = Seq<char>;

    closed spec fn view(&self) -> Seq<char> {
        self.name@
    }
}

impl SchnorrKeyId {
    /// A key id with the given name.
    pub fn new(name: String) -> (id: SchnorrKeyId)
        ensures
            id@ == name@,
    {
        SchnorrKeyId { name }
    }

    /// The name of the key.
    pub fn name(&self) -> (name: &String)
        ensures
            name@ == self@,
    {
        &self.name
    }
}

/// The key names that this service declares.
#[derive(Clone, Copy, Debug, PartialEq, Eq, Structural)]
pub enum SchnorrKeyIds {
    DfxTestKey,
    TestKey1,
}

impl SchnorrKeyIds {
    /// The name that the variant stands for.
    pub open spec fn name(self) -> Seq<char> {
        match self {
            SchnorrKeyIds::DfxTestKey => "dfx_test_key"@,
            SchnorrKeyIds::TestKey1 => "test_key_1"@,
        }
    }

    /// The key id that carries the variant's name.
    pub fn to_key_id(&self) -> (id: SchnorrKeyId)
        ensures
            id@ == self.name(),
    {
        SchnorrKeyId {
            name: match self {
                Self::DfxTestKey => "dfx_test_key",
                Self::TestKey1 => "test_key_1",
            }.to_string(),
        }
    }

    /// Every declared key, each once.
    pub fn variants() -> (all: Vec<SchnorrKeyIds>)
        ensures
            all@ == seq![SchnorrKeyIds::DfxTestKey, SchnorrKeyIds::TestKey1],
    {
        vec![SchnorrKeyIds::DfxTestKey, SchnorrKeyIds::TestKey1]
    }
}

/// Different declared keys have different names.
pub proof fn lemma_names_distinct(a: SchnorrKeyIds, b: SchnorrKeyIds)
    ensures
        a.name() == b.name() <==> a == b,
{
    reveal_strlit("dfx_test_key");
    reveal_strlit("test_key_1");
    assert("dfx_test_key"@.len() == 12);
    assert("test_key_1"@.len() == 10);
}

/// A request for the public key of a derived key.
#[derive(Debug)]
pub struct SchnorrPublicKey {
    /// The tenant to derive for; the caller where it is `None`.
    pub canister_id: Option<Vec<u8>>,
    /// The path segments below the tenant.
    pub derivation_path: Vec<Vec<u8>>,
    pub key_id: SchnorrKeyId,
}

/// A derived public key with its chain code.
#[derive(Debug)]
pub struct SchnorrPublicKeyReply {
    pub public_key: Vec<u8>,
    pub chain_code: Vec<u8>,
}

/// A request to sign a digest with a derived key of the caller.
#[derive(Debug)]
pub struct SignWithSchnorr {
    /// The 32-byte digest to sign.
    pub message: Vec<u8>,
    /// The path segments below the caller.
    pub derivation_path: Vec<Vec<u8>>,
    pub key_id: SchnorrKeyId,
}

/// A signature.
#[derive(Debug)]
pub struct SignWithSchnorrReply {
    pub signature: Vec<u8>,
}

/// A snapshot of what the service reports about itself.
#[derive(Clone, Copy, Debug, PartialEq, Eq, Structural)]
pub struct Metrics {
    pub balance: u128,
    pub sig_count: u128,
}

} // verus!
