use addrgen::{AddressGenerator, AddressType};
use ed25519_dalek::SigningKey;
use soroban_env_host::budget::AsBudget;
use soroban_sdk::xdr::{
    AccountId, LedgerKey, LedgerKeyAccount, LedgerKeyTrustLine, PublicKey, TrustLineAsset,
    Uint256,
};
use soroban_sdk::testutils::EnvTestConfig;
use soroban_sdk::Env;
use std::rc::Rc;

fn test_env() -> Env {
    // Keep the test environment from writing snapshot files on drop.
    Env::new_with_config(EnvTestConfig { capture_snapshot_at_drop: false })
}

fn schema(seed: u64, kinds: [AddressType; 2]) -> AddressGenerator {
    AddressGenerator { address_seed: seed, address_types: kinds }
}

#[test]
fn fixtures_exactly_for_key_backed_identities() {
    let env = test_env();
    let g = schema(1000, [AddressType::Account, AddressType::Contract]);
    let pairs = g.generate_signers_with_bytes(&env).unwrap();
    let fixtures = addrgen::build_fixtures(&pairs);
    assert_eq!(fixtures.len(), pairs.len());
    assert!(fixtures[0].is_some());
    assert!(fixtures[1].is_none());
}

#[test]
fn fixture_records_hold_the_default_values() {
    let env = test_env();
    let g = schema(9, [AddressType::Account, AddressType::Account]);
    let pairs = g.generate_signers_with_bytes(&env).unwrap();
    let fixtures = addrgen::build_fixtures(&pairs);
    for fx in fixtures.iter() {
        let fx = fx.as_ref().unwrap();
        assert_eq!(fx.account.balance, 10_000_000);
        assert_eq!(fx.account.seq_num, 0);
        assert_eq!(fx.account.num_sub_entries, 0);
        assert_eq!(fx.account.flags, 0);
        assert_eq!(fx.account.thresholds, vec![1, 0, 0, 0]);
        assert_eq!(fx.account.signer_weight, 100);
        assert_eq!(fx.account.signer_vk, fx.account.account_vk);

        assert_eq!(fx.trust.account_vk, fx.account.account_vk);
        assert_eq!(fx.trust.asset_code, vec![b'a', b'a', b'a', 0]);
        let mut issuer = vec![0u8; 31];
        issuer.push(1);
        assert_eq!(fx.trust.issuer_vk, issuer);
        assert_eq!(fx.trust.balance, 0);
        assert_eq!(fx.trust.limit, i64::MAX);
        assert_eq!(fx.trust.flags, 1 | 4);
    }
}

#[test]
fn signer_weight_exceeds_low_threshold() {
    let env = test_env();
    let g = schema(321, [AddressType::Account, AddressType::Contract]);
    let pairs = g.generate_signers_with_bytes(&env).unwrap();
    let fixtures = addrgen::build_fixtures(&pairs);
    let fx = fixtures[0].as_ref().unwrap();
    assert!(fx.account.signer_weight > fx.account.thresholds[0] as u32);
}

#[test]
fn fixture_public_key_is_derived_from_fingerprint() {
    let env = test_env();
    let g = schema(4242, [AddressType::Account, AddressType::Contract]);
    let pairs = g.generate_signers_with_bytes(&env).unwrap();
    let fixtures = addrgen::build_fixtures(&pairs);
    let fx = fixtures[0].as_ref().unwrap();
    let seed: [u8; 32] = pairs[0].1.as_slice().try_into().unwrap();
    let expected = SigningKey::from_bytes(&seed).verifying_key().to_bytes();
    assert_eq!(fx.account.account_vk.as_slice(), expected.as_slice());
    // The public key is a real derivation, not the seed handed back.
    assert_ne!(fx.account.account_vk.as_slice(), seed.as_slice());
}

#[test]
fn fixture_vks_are_deterministic() {
    let env1 = test_env();
    let env2 = test_env();
    let g = schema(31337, [AddressType::Account, AddressType::Account]);
    let p1 = g.generate_signers_with_bytes(&env1).unwrap();
    let p2 = g.generate_signers_with_bytes(&env2).unwrap();
    let f1 = addrgen::build_fixtures(&p1);
    let f2 = addrgen::build_fixtures(&p2);
    for (a, b) in f1.iter().zip(f2.iter()) {
        let (a, b) = (a.as_ref().unwrap(), b.as_ref().unwrap());
        assert_eq!(a.account.account_vk, b.account.account_vk);
    }
}

#[test]
fn setup_commits_account_and_trustline_per_key_backed_identity() {
    let env = test_env();
    let g = schema(1000, [AddressType::Account, AddressType::Contract]);
    g.setup_account_storage(&env).unwrap();

    let pairs = g.generate_signers_with_bytes(&env).unwrap();
    let fixtures = addrgen::build_fixtures(&pairs);
    let fx = fixtures[0].as_ref().unwrap();
    let vk: [u8; 32] = fx.account.account_vk.as_slice().try_into().unwrap();
    let account_id = AccountId(PublicKey::PublicKeyTypeEd25519(Uint256(vk)));

    let account_key = LedgerKey::Account(LedgerKeyAccount { account_id: account_id.clone() });
    let has_account = env
        .host()
        .with_mut_storage(|st| st.has(&Rc::new(account_key), env.host().as_budget()))
        .unwrap();
    assert!(has_account);

    // Rebuild the trust-line key from the committed entry's own asset.
    let issuer_vk: [u8; 32] = fx.trust.issuer_vk.as_slice().try_into().unwrap();
    let issuer = AccountId(PublicKey::PublicKeyTypeEd25519(Uint256(issuer_vk)));
    let code: [u8; 4] = fx.trust.asset_code.as_slice().try_into().unwrap();
    let asset = TrustLineAsset::CreditAlphanum4(soroban_sdk::xdr::AlphaNum4 {
        asset_code: soroban_sdk::xdr::AssetCode4(code),
        issuer,
    });
    let trust_key = LedgerKey::Trustline(LedgerKeyTrustLine { account_id, asset });
    let has_trust = env
        .host()
        .with_mut_storage(|st| st.has(&Rc::new(trust_key), env.host().as_budget()))
        .unwrap();
    assert!(has_trust);
}

#[test]
fn setup_succeeds_for_all_opaque_schema() {
    let env = test_env();
    let g = schema(2000, [AddressType::Contract, AddressType::Contract]);
    assert_eq!(g.setup_account_storage(&env), Ok(()));
    let pairs = g.generate_signers_with_bytes(&env).unwrap();
    let fixtures = addrgen::build_fixtures(&pairs);
    assert!(fixtures.iter().all(|f| f.is_none()));
}
