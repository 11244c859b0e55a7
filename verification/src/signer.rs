use vstd::prelude::*;

use crate::fingerprint::{fingerprint_bytes, fingerprint_spec};
use crate::schema::{AddressGenerator, AddressType, NUMBER_OF_ADDRESSES};
use soroban_sdk::TryFromVal;

verus! {

#[verifier::external_type_specification]
#[verifier::external_body]
pub struct ExEnv(soroban_sdk::Env);

#[verifier::external_type_specification]
#[verifier::external_body]
pub struct ExAddress(soroban_sdk::Address);

#[verifier::external_type_specification]
#[verifier::external_body]
pub struct ExSigningKey(ed25519_dalek::SigningKey);

/// The 32 public-key bytes of the ed25519 keypair whose secret seed is the
/// given 32 bytes; a function of the seed bytes alone.
pub uninterp spec fn vk_of(seed: Seq<u8>) -> Seq<u8>;

/// Relies on `ed25519_dalek::SigningKey::from_bytes`: builds the keypair
/// deterministically from exactly these 32 seed bytes.
#[verifier::external_body]
fn sk_from_seed(seed: &Vec<u8>) -> (r: ed25519_dalek::SigningKey)
    requires
        seed@.len() == 32,
{
    let bytes: [u8; 32] = seed.as_slice().try_into().unwrap();
    ed25519_dalek::SigningKey::from_bytes(&bytes)
}

/// Relies on `ed25519_dalek::SigningKey::from_bytes` followed by
/// `verifying_key().to_bytes()`: the 32 public-key bytes are a function of
/// the 32 seed bytes alone.
#[verifier::external_body]
pub(crate) fn vk_from_seed(seed: &Vec<u8>) -> (r: Vec<u8>)
    requires
        seed@.len() == 32,
    ensures
        r@ == vk_of(seed@),
        r@.len() == 32,
{
    let bytes: [u8; 32] = seed.as_slice().try_into().unwrap();
    ed25519_dalek::SigningKey::from_bytes(&bytes).verifying_key().to_bytes().to_vec()
}

/// Relies on `soroban_sdk::Address::try_from_val` over
/// `ScAddress::Account`: registers the account-style address for these
/// public-key bytes with the environment; `None` when the environment
/// refuses the conversion.
#[verifier::external_body]
fn account_address(
    env: &soroban_sdk::Env,
    vk: &Vec<u8>,
) -> (r: Option<soroban_sdk::Address>)
    requires
        vk@.len() == 32,
{
    let bytes: [u8; 32] = vk.as_slice().try_into().unwrap();
    let id = soroban_sdk::xdr::AccountId(soroban_sdk::xdr::PublicKey::PublicKeyTypeEd25519(
        soroban_sdk::xdr::Uint256(bytes),
    ));
    soroban_sdk::Address::try_from_val(env, &soroban_sdk::xdr::ScAddress::Account(id)).ok()
}

/// Relies on `soroban_sdk::Address::try_from_val` over
/// `ScAddress::Contract`: registers the contract-style address for these 32
/// bytes with the environment; `None` when the environment refuses the
/// conversion.
#[verifier::external_body]
fn contract_address(
    env: &soroban_sdk::Env,
    bytes: &Vec<u8>,
) -> (r: Option<soroban_sdk::Address>)
    requires
        bytes@.len() == 32,
{
    let hash: [u8; 32] = bytes.as_slice().try_into().unwrap();
    let sc = soroban_sdk::xdr::ScAddress::Contract(soroban_sdk::xdr::Hash(hash));
    soroban_sdk::Address::try_from_val(env, &sc).ok()
}

/// Relies on `soroban_sdk::Address`'s derived `Clone`: it copies the inner
/// object reference, so the clone equals the original.
#[verifier::external_body]
fn clone_address(a: &soroban_sdk::Address) -> (r: soroban_sdk::Address)
    ensures
        r == *a,
{
    a.clone()
}

/// Relies on `ed25519_dalek::SigningKey`'s `Clone`: it copies the key
/// bytes, so the clone equals the original.
#[verifier::external_body]
fn clone_signing_key(k: &ed25519_dalek::SigningKey) -> (r: ed25519_dalek::SigningKey)
    ensures
        r == *k,
{
    k.clone()
}

/// One derived identity: its environment handle and, for account-style
/// identities, the signing keypair backing it.
pub struct TestSigner {
    pub address: soroban_sdk::Address,
    pub key: Option<ed25519_dalek::SigningKey>,
}

impl Clone for TestSigner {
    fn clone(&self) -> (r: Self)
        ensures
            r == *self,
    {
        TestSigner {
            address: clone_address(&self.address),
            key: match &self.key {
                Some(k) => Some(clone_signing_key(k)),
                None => None,
            },
        }
    }
}

/// Setup-time failure taxonomy: a schema whose seed breaks the documented
/// bound, or an environment that refused an address derivation or a store
/// commit.
#[derive(Clone, Copy, Debug, PartialEq, Eq, Structural)]
pub enum FixtureError {
    SeedOverflow,
    Environment,
}

/// What derivation guarantees of its output: one entry per requested slot,
/// whose bytes are the slot's fingerprint and whose key material is present
/// exactly for account-style slots.
pub open spec fn derive_post(g: AddressGenerator, s: Seq<(TestSigner, Vec<u8>)>) -> bool {
    &&& s.len() == NUMBER_OF_ADDRESSES as int
    &&& forall|i: int| #![trigger s[i]]
        0 <= i < s.len() ==> {
            &&& s[i].1@ == fingerprint_spec(g.sub_seed(i))
            &&& (g.address_types@[i] is Account <==> s[i].0.key is Some)
        }
}

impl AddressGenerator {
    /// The derivation engine: maps each slot `i` to the identity derived
    /// from sub-seed `address_seed + i`, together with its 32-byte
    /// fingerprint. Rejects a schema that breaks the documented seed bound;
    /// reports an environment failure without partial output.
    ///
    /// Sub-seeds of exactly 0 or 1 have been observed to yield opaque
    /// (contract-style) identities that the environment treats as
    /// degenerate; until that is characterized, callers that rely on opaque
    /// identities should avoid schemas landing a sub-seed on 0 or 1.
    pub fn generate_signers_with_bytes(&self, env: &soroban_sdk::Env) -> (r: Result<
        Vec<(TestSigner, Vec<u8>)>,
        FixtureError,
    >)
        ensures
            r is Ok ==> self.valid() && derive_post(*self, r->Ok_0@),
            !self.valid() <==> (r is Err && r->Err_0 == FixtureError::SeedOverflow),
            self.valid() ==> (r is Ok || (r is Err && r->Err_0 == FixtureError::Environment)),
    {
        if self.address_seed > u64::MAX - (NUMBER_OF_ADDRESSES as u64) {
            return Err(FixtureError::SeedOverflow);
        }
        let mut signers: Vec<(TestSigner, Vec<u8>)> = Vec::new();
        let mut i: usize = 0;
        while i < NUMBER_OF_ADDRESSES
            invariant
                self.valid(),
                i <= NUMBER_OF_ADDRESSES,
                signers@.len() == i,
                forall|k: int| #![trigger signers@[k]]
                    0 <= k < i ==> {
                        &&& signers@[k].1@ == fingerprint_spec(self.sub_seed(k))
                        &&& (self.address_types@[k] is Account <==> signers@[k].0.key is Some)
                    },
            decreases NUMBER_OF_ADDRESSES - i,
        {
            let sub: u64 = self.address_seed + (i as u64);
            assert(sub == self.sub_seed(i as int));
            let bytes = fingerprint_bytes(sub);
            let signer = match self.address_types[i] {
                AddressType::Account => {
                    let sk = sk_from_seed(&bytes);
                    let vk = vk_from_seed(&bytes);
                    let address = match account_address(env, &vk) {
                        Some(a) => a,
                        None => {
                            return Err(FixtureError::Environment);
                        },
                    };
                    TestSigner { address, key: Some(sk) }
                },
                AddressType::Contract => {
                    let address = match contract_address(env, &bytes) {
                        Some(a) => a,
                        None => {
                            return Err(FixtureError::Environment);
                        },
                    };
                    TestSigner { address, key: None }
                },
            };
            signers.push((signer, bytes));
            i += 1;
        }
        Ok(signers)
    }

    /// Handles only: the ordered identity list for callers that need actors
    /// to act as, without the key material.
    pub fn generate_signers(&self, env: &soroban_sdk::Env) -> (r: Result<
        Vec<TestSigner>,
        FixtureError,
    >)
        ensures
            r is Ok ==> self.valid() && r->Ok_0@.len() == NUMBER_OF_ADDRESSES as int
                && forall|i: int| #![trigger r->Ok_0@[i]]
                    0 <= i < NUMBER_OF_ADDRESSES as int ==> (self.address_types@[i] is Account
                        <==> r->Ok_0@[i].key is Some),
            r is Ok ==> exists|pairs: Seq<(TestSigner, Vec<u8>)>|
                #[trigger] derive_post(*self, pairs) && r->Ok_0@ =~= pairs.map_values(
                    |p: (TestSigner, Vec<u8>)| p.0,
                ),
            !self.valid() <==> (r is Err && r->Err_0 == FixtureError::SeedOverflow),
            self.valid() ==> (r is Ok || (r is Err && r->Err_0 == FixtureError::Environment)),
    {
        let pairs = match self.generate_signers_with_bytes(env) {
            Ok(p) => p,
            Err(e) => {
                return Err(e);
            },
        };
        let mut out: Vec<TestSigner> = Vec::new();
        let mut i: usize = 0;
        while i < pairs.len()
            invariant
                derive_post(*self, pairs@),
                i <= pairs@.len(),
                out@.len() == i,
                forall|k: int| #![trigger out@[k]] 0 <= k < i ==> out@[k] == pairs@[k].0,
            decreases pairs@.len() - i,
        {
            let s = pairs[i].0.clone();
            out.push(s);
            i += 1;
        }
        proof {
            assert(out@ =~= pairs@.map_values(|p: (TestSigner, Vec<u8>)| p.0));
        }
        Ok(out)
    }
}

/// Determinism law: two derivations from the same schema agree entry for
/// entry on the fingerprint bytes and on whether key material is present.
pub proof fn lemma_derivation_deterministic(
    g: AddressGenerator,
    s1: Seq<(TestSigner, Vec<u8>)>,
    s2: Seq<(TestSigner, Vec<u8>)>,
)
    requires
        derive_post(g, s1),
        derive_post(g, s2),
    ensures
        s1.len() == s2.len(),
        forall|i: int| 0 <= i < s1.len() ==> #[trigger] s1[i].1@ == s2[i].1@,
        forall|i: int| 0 <= i < s1.len() ==> (#[trigger] s1[i].0.key is Some <==> s2[i].0.key
            is Some),
{
}

/// Uniqueness law: for a valid schema the derived fingerprints are pairwise
/// distinct.
pub proof fn lemma_fingerprints_distinct(g: AddressGenerator, s: Seq<(TestSigner, Vec<u8>)>)
    requires
        g.valid(),
        derive_post(g, s),
    ensures
        forall|i: int, j: int| 0 <= i < s.len() && 0 <= j < s.len() && i != j ==> #[trigger] s[i].1@
            != #[trigger] s[j].1@,
{
    assert forall|i: int, j: int|
        0 <= i < s.len() && 0 <= j < s.len() && i != j implies #[trigger] s[i].1@ != #[trigger] s[j].1@ by {
        assert(s[i].1@ == fingerprint_spec(g.sub_seed(i)));
        assert(s[j].1@ == fingerprint_spec(g.sub_seed(j)));
        if s[i].1@ == s[j].1@ {
            crate::fingerprint::lemma_fingerprint_injective(g.sub_seed(i), g.sub_seed(j));
            assert(g.sub_seed(i) == g.sub_seed(j));
            assert(false);
        }
    }
}

} // verus!
