use vstd::prelude::*;

verus! {

/// Number of identities derived from one schema.
pub const NUMBER_OF_ADDRESSES: usize = 2;

/// The kind tag of one requested identity slot: an account-style identity
/// backed by an ed25519 keypair, or an opaque contract-style identity with
/// no key material.
#[derive(Clone, Copy, Debug, PartialEq, Eq, Structural)]
pub enum AddressType {
    Account,
    Contract,
}

/// The identity schema: a seed plus a fixed-length list of identity kinds.
/// A schema is valid when deriving `NUMBER_OF_ADDRESSES` sequential
/// sub-seeds from `address_seed` cannot overflow a `u64`.
#[derive(Clone, Copy, Debug)]
pub struct AddressGenerator {
    pub address_seed: u64,
    pub address_types: [AddressType; NUMBER_OF_ADDRESSES],
}

impl AddressGenerator {
    /// The documented seed bound: every sub-seed `address_seed + i` with
    /// `i < NUMBER_OF_ADDRESSES` fits in a `u64`.
    pub open spec fn valid(self) -> bool {
        self.address_seed + NUMBER_OF_ADDRESSES <= u64::MAX
    }

    /// The sub-seed of slot `i`.
    pub open spec fn sub_seed(self, i: int) -> u64 {
        (self.address_seed + i) as u64
    }
}

} // verus!
