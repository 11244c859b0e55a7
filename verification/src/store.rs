use vstd::prelude::*;

use crate::fixtures::{build_fixtures, AccountRecord, TrustRecord};
use crate::schema::AddressGenerator;
use crate::signer::FixtureError;
use soroban_env_host::budget::AsBudget;
use soroban_sdk::xdr::{
    AccountEntry, AccountEntryExt, AccountId, AlphaNum4, AssetCode4, LedgerEntry, LedgerEntryData,
    LedgerEntryExt, LedgerKey, LedgerKeyAccount, LedgerKeyTrustLine, PublicKey, SequenceNumber,
    Signer, SignerKey, Thresholds, TrustLineAsset, TrustLineEntry, TrustLineEntryExt, Uint256,
};
use std::rc::Rc;

verus! {

#[verifier::external_type_specification]
#[verifier::external_body]
pub struct ExAccountId(AccountId);

#[verifier::external_type_specification]
#[verifier::external_body]
pub struct ExAccountEntry(AccountEntry);

#[verifier::external_type_specification]
#[verifier::external_body]
pub struct ExTrustLineEntry(TrustLineEntry);

/// Relies on the stellar xdr constructors: wraps 32 public-key bytes as an
/// ed25519 account identifier.
#[verifier::external_body]
fn xdr_account_id(vk: &Vec<u8>) -> AccountId
    requires
        vk@.len() == 32,
{
    let bytes: [u8; 32] = vk.as_slice().try_into().unwrap();
    AccountId(PublicKey::PublicKeyTypeEd25519(Uint256(bytes)))
}

/// Relies on the stellar xdr constructors: maps the record's fields one for
/// one into an `AccountEntry` with a single signer, an empty home domain
/// and the V0 extension.
#[verifier::external_body]
fn xdr_account_entry(id: &AccountId, rec: &AccountRecord) -> AccountEntry
    requires
        rec.signer_vk@.len() == 32,
        rec.thresholds@.len() == 4,
{
    let svk: [u8; 32] = rec.signer_vk.as_slice().try_into().unwrap();
    let th: [u8; 4] = rec.thresholds.as_slice().try_into().unwrap();
    let signer = Signer { key: SignerKey::Ed25519(Uint256(svk)), weight: rec.signer_weight };
    AccountEntry {
        account_id: id.clone(),
        balance: rec.balance,
        seq_num: SequenceNumber(rec.seq_num),
        num_sub_entries: rec.num_sub_entries,
        inflation_dest: None,
        flags: rec.flags,
        home_domain: Default::default(),
        thresholds: Thresholds(th),
        signers: vec![signer].try_into().unwrap(),
        ext: AccountEntryExt::V0,
    }
}

/// Relies on the stellar xdr constructors: maps the record's fields one for
/// one into a `TrustLineEntry` for the record's alphanumeric-4 asset and
/// issuer, with the V0 extension.
#[verifier::external_body]
fn xdr_trustline_entry(id: &AccountId, rec: &TrustRecord) -> TrustLineEntry
    requires
        rec.asset_code@.len() == 4,
        rec.issuer_vk@.len() == 32,
{
    let code: [u8; 4] = rec.asset_code.as_slice().try_into().unwrap();
    let ivk: [u8; 32] = rec.issuer_vk.as_slice().try_into().unwrap();
    let issuer = AccountId(PublicKey::PublicKeyTypeEd25519(Uint256(ivk)));
    let asset = TrustLineAsset::CreditAlphanum4(AlphaNum4 { asset_code: AssetCode4(code), issuer });
    TrustLineEntry {
        account_id: id.clone(),
        asset,
        balance: rec.balance,
        limit: rec.limit,
        flags: rec.flags,
        ext: TrustLineEntryExt::V0,
    }
}

/// Relies on `Host::with_mut_storage` and `Storage::put`: commits the entry
/// into the environment's ledger-state store under the account key for its
/// account identifier; the result says whether the store accepted it.
#[verifier::external_body]
fn put_account_entry(env: &soroban_sdk::Env, entry: AccountEntry) -> bool {
    let key = LedgerKey::Account(LedgerKeyAccount { account_id: entry.account_id.clone() });
    let le = LedgerEntry {
        last_modified_ledger_seq: 0,
        data: LedgerEntryData::Account(entry),
        ext: LedgerEntryExt::V0,
    };
    env.host()
        .with_mut_storage(|st| st.put(&Rc::new(key), &Rc::new(le), None, env.host().as_budget()))
        .is_ok()
}

/// Relies on `Host::with_mut_storage` and `Storage::put`: commits the entry
/// into the environment's ledger-state store under the trust-line key for
/// its account identifier and asset; the result says whether the store
/// accepted it.
#[verifier::external_body]
fn put_trustline_entry(env: &soroban_sdk::Env, entry: TrustLineEntry) -> bool {
    let key = LedgerKey::Trustline(LedgerKeyTrustLine {
        account_id: entry.account_id.clone(),
        asset: entry.asset.clone(),
    });
    let le = LedgerEntry {
        last_modified_ledger_seq: 0,
        data: LedgerEntryData::Trustline(entry),
        ext: LedgerEntryExt::V0,
    };
    env.host()
        .with_mut_storage(|st| st.put(&Rc::new(key), &Rc::new(le), None, env.host().as_budget()))
        .is_ok()
}

impl AddressGenerator {
    /// The fixture builder: derives the identities of this schema, then
    /// commits into the environment's ledger-state store one account record
    /// and one trust-line record per key-backed identity, and nothing for
    /// the opaque ones. Rejects a schema that breaks the documented seed
    /// bound; a refused derivation or commit is an environment failure.
    pub fn setup_account_storage(&self, env: &soroban_sdk::Env) -> (r: Result<(), FixtureError>)
        ensures
            !self.valid() <==> (r is Err && r->Err_0 == FixtureError::SeedOverflow),
            self.valid() ==> (r is Ok || (r is Err && r->Err_0 == FixtureError::Environment)),
    {
        let pairs = match self.generate_signers_with_bytes(env) {
            Ok(p) => p,
            Err(e) => {
                return Err(e);
            },
        };
        let fixtures = build_fixtures(&pairs);
        let mut i: usize = 0;
        while i < fixtures.len()
            invariant
                self.valid(),
                i <= fixtures@.len(),
                crate::fixtures::fixtures_post(pairs@, fixtures@),
            decreases fixtures@.len() - i,
        {
            match &fixtures[i] {
                Some(fx) => {
                    let id = xdr_account_id(&fx.account.account_vk);
                    let entry = xdr_account_entry(&id, &fx.account);
                    if !put_account_entry(env, entry) {
                        return Err(FixtureError::Environment);
                    }
                    let line = xdr_trustline_entry(&id, &fx.trust);
                    if !put_trustline_entry(env, line) {
                        return Err(FixtureError::Environment);
                    }
                },
                None => {},
            }
            i += 1;
        }
        Ok(())
    }
}

} // verus!
