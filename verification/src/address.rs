use vstd::prelude::*;

verus! {

/// Whether an identity names an account or a deployed contract.
#[derive(Clone, Copy, Debug, PartialEq, Eq, Structural)]
pub enum AddressKind {
    Account,
    Contract,
}

/// The identity of a participant: a player, the house, the administrator,
/// the hub, or this contract itself.
///
/// An identity is its kind together with a 256-bit key, held as two halves.
/// Two identities are the same participant exactly when all three parts agree.
#[derive(Clone, Copy, Debug, PartialEq, Eq, Structural)]
pub struct Address {
    pub kind: AddressKind,
    pub key_hi: u128,
    pub key_lo: u128,
}

impl Address {
    /// The account whose key has the given halves.
    pub fn account(key_hi: u128, key_lo: u128) -> (a: Address)
        ensures
            a == (Address { kind: AddressKind::Account, key_hi, key_lo }),
    {
        Address { kind: AddressKind::Account, key_hi, key_lo }
    }

    /// The contract whose key has the given halves.
    pub fn contract(key_hi: u128, key_lo: u128) -> (a: Address)
        ensures
            a == (Address { kind: AddressKind::Contract, key_hi, key_lo }),
    {
        Address { kind: AddressKind::Contract, key_hi, key_lo }
    }
}

} // verus!
