use vstd::prelude::*;

use crate::signer::{vk_from_seed, vk_of, TestSigner};

verus! {

/// Starting balance of every generated account record.
pub const DEFAULT_ACCOUNT_BALANCE: i64 = 10_000_000;

/// Weight of the single signer entry; it strictly exceeds the low
/// authorization threshold, so that signer alone authorizes.
pub const DEFAULT_SIGNER_WEIGHT: u32 = 100;

/// Low authorization threshold of every generated account record.
pub const LOW_THRESHOLD: u8 = 1;

/// Stellar trust-line flag bit marking the line authorized.
pub const TRUSTLINE_AUTHORIZED_FLAG: u32 = 1;

/// Stellar trust-line flag bit marking clawback enabled.
pub const TRUSTLINE_CLAWBACK_ENABLED_FLAG: u32 = 4;

/// The fixed asset code shared by all generated trust lines.
pub open spec fn asset_code_spec() -> Seq<u8> {
    seq![97u8, 97u8, 97u8, 0u8]
}

/// The fixed issuer identity shared by all generated trust lines: 31 zero
/// bytes followed by one. It matches the issuer the environment binds when
/// it registers its default asset.
pub open spec fn issuer_spec() -> Seq<u8> {
    Seq::new(32, |i: int| if i == 31 { 1u8 } else { 0u8 })
}

/// Minimal ledger account record for one key-backed identity, as plain
/// values: the owner's public key, fixed balance and counters, and a single
/// self-signer whose weight exceeds the low threshold.
pub struct AccountRecord {
    pub account_vk: Vec<u8>,
    pub balance: i64,
    pub seq_num: i64,
    pub num_sub_entries: u32,
    pub flags: u32,
    pub thresholds: Vec<u8>,
    pub signer_vk: Vec<u8>,
    pub signer_weight: u32,
}

/// Minimal trust-line record tying the same identity's account to the fixed
/// asset and issuer, authorized and clawback-enabled, empty, with the
/// largest representable limit.
pub struct TrustRecord {
    pub account_vk: Vec<u8>,
    pub asset_code: Vec<u8>,
    pub issuer_vk: Vec<u8>,
    pub balance: i64,
    pub limit: i64,
    pub flags: u32,
}

/// Well-formedness: the byte fields have the lengths the ledger format
/// demands.
pub open spec fn account_wf(r: AccountRecord) -> bool {
    &&& r.account_vk@.len() == 32
    &&& r.signer_vk@.len() == 32
    &&& r.thresholds@.len() == 4
}

pub open spec fn trust_wf(r: TrustRecord) -> bool {
    &&& r.account_vk@.len() == 32
    &&& r.asset_code@.len() == 4
    &&& r.issuer_vk@.len() == 32
}

/// The account record the builder commits for the identity whose public
/// key is `vk`.
pub open spec fn is_default_account(r: AccountRecord, vk: Seq<u8>) -> bool {
    &&& r.account_vk@ == vk
    &&& r.balance == DEFAULT_ACCOUNT_BALANCE
    &&& r.seq_num == 0
    &&& r.num_sub_entries == 0
    &&& r.flags == 0
    &&& r.thresholds@ == seq![LOW_THRESHOLD, 0u8, 0u8, 0u8]
    &&& r.signer_vk@ == vk
    &&& r.signer_weight == DEFAULT_SIGNER_WEIGHT
}

/// The trust-line record the builder commits for the identity whose public
/// key is `vk`.
pub open spec fn is_default_trust(r: TrustRecord, vk: Seq<u8>) -> bool {
    &&& r.account_vk@ == vk
    &&& r.asset_code@ == asset_code_spec()
    &&& r.issuer_vk@ == issuer_spec()
    &&& r.balance == 0
    &&& r.limit == i64::MAX
    &&& r.flags == TRUSTLINE_AUTHORIZED_FLAG | TRUSTLINE_CLAWBACK_ENABLED_FLAG
}

/// Copies a byte vector.
fn copy_bytes(v: &Vec<u8>) -> (r: Vec<u8>)
    ensures
        r@ == v@,
{
    let mut r: Vec<u8> = Vec::new();
    let mut i: usize = 0;
    while i < v.len()
        invariant
            i <= v@.len(),
            r@ == v@.subrange(0, i as int),
        decreases v@.len() - i,
    {
        r.push(v[i]);
        assert(r@ =~= v@.subrange(0, i + 1 as int));
        i += 1;
    }
    assert(r@ =~= v@);
    r
}

/// Builds the default account record for public key `vk`.
pub fn default_account_record(vk: &Vec<u8>) -> (r: AccountRecord)
    requires
        vk@.len() == 32,
    ensures
        account_wf(r),
        is_default_account(r, vk@),
{
    let mut thresholds: Vec<u8> = Vec::new();
    thresholds.push(LOW_THRESHOLD);
    thresholds.push(0u8);
    thresholds.push(0u8);
    thresholds.push(0u8);
    assert(thresholds@ =~= seq![LOW_THRESHOLD, 0u8, 0u8, 0u8]);
    AccountRecord {
        account_vk: copy_bytes(vk),
        balance: DEFAULT_ACCOUNT_BALANCE,
        seq_num: 0,
        num_sub_entries: 0,
        flags: 0,
        thresholds,
        signer_vk: copy_bytes(vk),
        signer_weight: DEFAULT_SIGNER_WEIGHT,
    }
}

/// Builds the fixed issuer identity bytes.
fn issuer_bytes() -> (r: Vec<u8>)
    ensures
        r@ == issuer_spec(),
{
    let mut r: Vec<u8> = Vec::new();
    let mut i: usize = 0;
    while i < 31
        invariant
            i <= 31,
            r@.len() == i,
            forall|k: int| 0 <= k < i ==> r@[k] == 0u8,
        decreases 31 - i,
    {
        r.push(0u8);
        i += 1;
    }
    r.push(1u8);
    assert(r@ =~= issuer_spec());
    r
}

/// Builds the default trust-line record for public key `vk`.
pub fn default_trust_record(vk: &Vec<u8>) -> (r: TrustRecord)
    requires
        vk@.len() == 32,
    ensures
        trust_wf(r),
        is_default_trust(r, vk@),
{
    let mut asset_code: Vec<u8> = Vec::new();
    asset_code.push(97u8);
    asset_code.push(97u8);
    asset_code.push(97u8);
    asset_code.push(0u8);
    assert(asset_code@ =~= asset_code_spec());
    TrustRecord {
        account_vk: copy_bytes(vk),
        asset_code,
        issuer_vk: issuer_bytes(),
        balance: 0,
        limit: i64::MAX,
        flags: TRUSTLINE_AUTHORIZED_FLAG | TRUSTLINE_CLAWBACK_ENABLED_FLAG,
    }
}

/// The pair of ledger records backing one key-backed identity.
pub struct Fixture {
    pub account: AccountRecord,
    pub trust: TrustRecord,
}

/// The records of one fixture are the default ones for the public key of
/// the keypair seeded with fingerprint `fp`.
pub open spec fn fixture_for(f: Fixture, fp: Seq<u8>) -> bool {
    &&& account_wf(f.account)
    &&& trust_wf(f.trust)
    &&& is_default_account(f.account, vk_of(fp))
    &&& is_default_trust(f.trust, vk_of(fp))
}

/// What fixture construction guarantees: one slot per derived identity,
/// holding records exactly for the key-backed identities and nothing for
/// the opaque ones.
pub open spec fn fixtures_post(
    pairs: Seq<(TestSigner, Vec<u8>)>,
    fixtures: Seq<Option<Fixture>>,
) -> bool {
    &&& fixtures.len() == pairs.len()
    &&& forall|i: int| #![trigger fixtures[i]]
        0 <= i < pairs.len() ==> {
            &&& (fixtures[i] is Some <==> pairs[i].0.key is Some)
            &&& (fixtures[i] is Some ==> fixture_for(fixtures[i]->0, pairs[i].1@))
        }
}

/// Builds, for each derived identity in order, the records the store is to
/// commit: the default account and trust-line records for a key-backed
/// identity, nothing for an opaque one.
pub fn build_fixtures(pairs: &Vec<(TestSigner, Vec<u8>)>) -> (r: Vec<Option<Fixture>>)
    requires
        forall|i: int| 0 <= i < pairs@.len() ==> #[trigger] pairs@[i].1@.len() == 32,
    ensures
        fixtures_post(pairs@, r@),
{
    let mut r: Vec<Option<Fixture>> = Vec::new();
    let mut i: usize = 0;
    while i < pairs.len()
        invariant
            i <= pairs@.len(),
            r@.len() == i,
            forall|k: int| 0 <= k < pairs@.len() ==> #[trigger] pairs@[k].1@.len() == 32,
            forall|k: int| #![trigger r@[k]]
                0 <= k < i ==> {
                    &&& (r@[k] is Some <==> pairs@[k].0.key is Some)
                    &&& (r@[k] is Some ==> fixture_for(r@[k]->0, pairs@[k].1@))
                },
        decreases pairs@.len() - i,
    {
        let fx = match &pairs[i].0.key {
            Some(_) => {
                let vk = vk_from_seed(&pairs[i].1);
                Some(
                    Fixture {
                        account: default_account_record(&vk),
                        trust: default_trust_record(&vk),
                    },
                )
            },
            None => None,
        };
        r.push(fx);
        i += 1;
    }
    r
}

/// Number of key-backed identities in a derived list.
pub open spec fn count_key_backed(pairs: Seq<(TestSigner, Vec<u8>)>) -> int
    decreases pairs.len(),
{
    if pairs.len() == 0 {
        0int
    } else {
        count_key_backed(pairs.drop_last()) + if pairs.last().0.key is Some {
            1int
        } else {
            0int
        }
    }
}

/// Number of committed fixtures in a fixture list.
pub open spec fn count_fixtures(fixtures: Seq<Option<Fixture>>) -> int
    decreases fixtures.len(),
{
    if fixtures.len() == 0 {
        0int
    } else {
        count_fixtures(fixtures.drop_last()) + if fixtures.last() is Some {
            1int
        } else {
            0int
        }
    }
}

/// Fixture completeness law: after fixture construction every key-backed
/// identity has exactly one account record and one trust-line record slot,
/// no opaque identity has one, and the number of committed fixtures equals
/// the number of key-backed identities.
pub proof fn lemma_fixture_completeness(
    pairs: Seq<(TestSigner, Vec<u8>)>,
    fixtures: Seq<Option<Fixture>>,
)
    requires
        fixtures_post(pairs, fixtures),
    ensures
        forall|i: int| #![trigger fixtures[i]]
            0 <= i < pairs.len() && pairs[i].0.key is Some ==> fixtures[i] is Some && fixture_for(
                fixtures[i]->0,
                pairs[i].1@,
            ),
        forall|i: int| #![trigger fixtures[i]]
            0 <= i < pairs.len() && pairs[i].0.key is None ==> fixtures[i] is None,
        count_fixtures(fixtures) == count_key_backed(pairs),
    decreases pairs.len(),
{
    if pairs.len() > 0 {
        assert(fixtures[pairs.len() - 1] is Some <==> pairs[pairs.len() - 1].0.key is Some);
        assert(fixtures_post(pairs.drop_last(), fixtures.drop_last())) by {
            assert forall|i: int| #![trigger fixtures.drop_last()[i]]
                0 <= i < pairs.drop_last().len() implies {
                &&& (fixtures.drop_last()[i] is Some <==> pairs.drop_last()[i].0.key is Some)
                &&& (fixtures.drop_last()[i] is Some ==> fixture_for(
                    fixtures.drop_last()[i]->0,
                    pairs.drop_last()[i].1@,
                ))
            } by {
                assert(fixtures.drop_last()[i] == fixtures[i]);
                assert(pairs.drop_last()[i] == pairs[i]);
            }
        }
        lemma_fixture_completeness(pairs.drop_last(), fixtures.drop_last());
    }
}

/// Fixture determinism law: fixture lists built from two derivations of
/// the same schema agree slot for slot, both on which identities carry
/// records and on every field of those records.
pub proof fn lemma_fixtures_deterministic(
    g: crate::schema::AddressGenerator,
    s1: Seq<(TestSigner, Vec<u8>)>,
    s2: Seq<(TestSigner, Vec<u8>)>,
    f1: Seq<Option<Fixture>>,
    f2: Seq<Option<Fixture>>,
)
    requires
        crate::signer::derive_post(g, s1),
        crate::signer::derive_post(g, s2),
        fixtures_post(s1, f1),
        fixtures_post(s2, f2),
    ensures
        f1.len() == f2.len(),
        forall|i: int| 0 <= i < f1.len() ==> (#[trigger] f1[i] is Some <==> #[trigger] f2[i]
            is Some),
        forall|i: int|
            0 <= i < f1.len() && f1[i] is Some ==> {
                &&& is_default_account(#[trigger] f1[i]->0.account, vk_of(s1[i].1@))
                &&& is_default_account(#[trigger] f2[i]->0.account, vk_of(s1[i].1@))
                &&& f1[i]->0.account.account_vk@ == f2[i]->0.account.account_vk@
                &&& f1[i]->0.trust.account_vk@ == f2[i]->0.trust.account_vk@
            },
{
    assert forall|i: int|
        0 <= i < f1.len() && f1[i] is Some implies {
        &&& is_default_account(#[trigger] f1[i]->0.account, vk_of(s1[i].1@))
        &&& is_default_account(#[trigger] f2[i]->0.account, vk_of(s1[i].1@))
        &&& f1[i]->0.account.account_vk@ == f2[i]->0.account.account_vk@
        &&& f1[i]->0.trust.account_vk@ == f2[i]->0.trust.account_vk@
    } by {
        assert(s1[i].1@ == s2[i].1@);
        assert(fixture_for(f1[i]->0, s1[i].1@));
        assert(fixture_for(f2[i]->0, s2[i].1@));
    }
}

/// Authorization validity law: the single signer of any default account
/// record carries a weight strictly above the record's low threshold, so a
/// transaction signed by that identity alone is authorized.
pub proof fn lemma_authorization_valid(r: AccountRecord, vk: Seq<u8>)
    requires
        is_default_account(r, vk),
    ensures
        r.signer_weight > r.thresholds@[0],
{
}

} // verus!
