pub mod fingerprint;
pub mod fixtures;
pub mod schema;
pub mod signer;
pub mod store;

pub use fingerprint::{be_byte, fingerprint_bytes, fingerprint_spec};
pub use fixtures::{
    build_fixtures, default_account_record, default_trust_record, AccountRecord, Fixture,
    TrustRecord,
};
pub use schema::{AddressGenerator, AddressType, NUMBER_OF_ADDRESSES};
pub use signer::{derive_post, vk_of, FixtureError, TestSigner};
