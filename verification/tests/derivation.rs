use addrgen::{AddressGenerator, AddressType, FixtureError, NUMBER_OF_ADDRESSES};
use soroban_sdk::testutils::EnvTestConfig;
use soroban_sdk::Env;

fn test_env() -> Env {
    // Keep the test environment from writing snapshot files on drop.
    Env::new_with_config(EnvTestConfig { capture_snapshot_at_drop: false })
}

fn schema(seed: u64, kinds: [AddressType; NUMBER_OF_ADDRESSES]) -> AddressGenerator {
    AddressGenerator { address_seed: seed, address_types: kinds }
}

#[test]
fn fingerprint_of_zero_is_all_zero() {
    let fp = addrgen::fingerprint_bytes(0);
    assert_eq!(fp, vec![0u8; 32]);
}

#[test]
fn fingerprint_exact_bytes() {
    let fp = addrgen::fingerprint_bytes(0x0102030405060708);
    let mut expected = vec![0u8; 24];
    expected.extend_from_slice(&[1, 2, 3, 4, 5, 6, 7, 8]);
    assert_eq!(fp, expected);
}

#[test]
fn derivation_is_deterministic() {
    let env1 = test_env();
    let env2 = test_env();
    let g = schema(7, [AddressType::Account, AddressType::Contract]);
    let r1 = g.generate_signers_with_bytes(&env1).unwrap();
    let r2 = g.generate_signers_with_bytes(&env2).unwrap();
    assert_eq!(r1.len(), r2.len());
    for ((s1, b1), (s2, b2)) in r1.iter().zip(r2.iter()) {
        assert_eq!(b1, b2);
        assert_eq!(s1.key.is_some(), s2.key.is_some());
        match (&s1.key, &s2.key) {
            (Some(k1), Some(k2)) => assert_eq!(k1.to_bytes(), k2.to_bytes()),
            (None, None) => {}
            _ => panic!("key presence differs"),
        }
    }
}

#[test]
fn handles_are_deterministic_within_one_env() {
    let env = test_env();
    let g = schema(42, [AddressType::Account, AddressType::Contract]);
    let r1 = g.generate_signers(&env).unwrap();
    let r2 = g.generate_signers(&env).unwrap();
    assert_eq!(r1.len(), r2.len());
    for (s1, s2) in r1.iter().zip(r2.iter()) {
        assert_eq!(s1.address, s2.address);
    }
}

#[test]
fn fingerprints_are_pairwise_distinct() {
    let env = test_env();
    for seed in [0u64, 1, 2, 999, 123_456_789] {
        let g = schema(seed, [AddressType::Account, AddressType::Account]);
        let r = g.generate_signers_with_bytes(&env).unwrap();
        for i in 0..r.len() {
            for j in 0..r.len() {
                if i != j {
                    assert_ne!(r[i].1, r[j].1);
                }
            }
        }
    }
}

#[test]
fn key_material_present_exactly_for_account_kind() {
    let env = test_env();
    let g = schema(500, [AddressType::Account, AddressType::Contract]);
    let r = g.generate_signers(&env).unwrap();
    assert!(r[0].key.is_some());
    assert!(r[1].key.is_none());

    let g = schema(500, [AddressType::Contract, AddressType::Account]);
    let r = g.generate_signers(&env).unwrap();
    assert!(r[0].key.is_none());
    assert!(r[1].key.is_some());
}

#[test]
fn seed_one_above_bound_is_rejected() {
    let env = test_env();
    let n = NUMBER_OF_ADDRESSES as u64;
    let g = schema(u64::MAX - n + 1, [AddressType::Account, AddressType::Account]);
    assert_eq!(
        g.generate_signers_with_bytes(&env).map(|_| ()),
        Err(FixtureError::SeedOverflow)
    );
    assert_eq!(g.generate_signers(&env).map(|_| ()), Err(FixtureError::SeedOverflow));
    assert_eq!(g.setup_account_storage(&env), Err(FixtureError::SeedOverflow));
}

#[test]
fn seed_at_bound_is_accepted() {
    let env = test_env();
    let n = NUMBER_OF_ADDRESSES as u64;
    let g = schema(u64::MAX - n, [AddressType::Account, AddressType::Contract]);
    let r = g.generate_signers_with_bytes(&env).unwrap();
    assert_eq!(r.len(), NUMBER_OF_ADDRESSES);
}

#[test]
fn example_seed_1000_fingerprints() {
    let env = test_env();
    let g = schema(1000, [AddressType::Account, AddressType::Contract]);
    let r = g.generate_signers_with_bytes(&env).unwrap();
    assert_eq!(r.len(), 2);
    // 1000 = 0x03e8 and 1001 = 0x03e9, big-endian in the last 8 bytes.
    assert_eq!(&r[0].1[..24], &[0u8; 24]);
    assert_eq!(&r[0].1[24..], &[0, 0, 0, 0, 0, 0, 3, 232]);
    assert_eq!(&r[1].1[..24], &[0u8; 24]);
    assert_eq!(&r[1].1[24..], &[0, 0, 0, 0, 0, 0, 3, 233]);
    assert!(r[0].0.key.is_some());
    assert!(r[1].0.key.is_none());
}

#[test]
fn key_material_matches_fingerprint_seed() {
    let env = test_env();
    let g = schema(77, [AddressType::Account, AddressType::Account]);
    let r = g.generate_signers_with_bytes(&env).unwrap();
    for (signer, bytes) in &r {
        let key = signer.key.as_ref().unwrap();
        assert_eq!(key.to_bytes().as_slice(), bytes.as_slice());
    }
}

#[test]
fn degenerate_low_sub_seeds_currently_derive() {
    // Sub-seeds 0 and 1 are documented as yielding questionable opaque
    // identities; this records that derivation itself currently accepts
    // them rather than asserting any corrected outcome.
    let env = test_env();
    let g = schema(0, [AddressType::Contract, AddressType::Contract]);
    let r = g.generate_signers(&env).unwrap();
    assert_eq!(r.len(), 2);
    assert!(r.iter().all(|s| s.key.is_none()));
}
