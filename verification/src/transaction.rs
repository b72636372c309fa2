//! The transaction that carries a read-only contract call, and the values
//! it is made of.

use vstd::prelude::*;
use crate::address::Address;

verus! {

/// An unsigned 256-bit number, held as two halves of 128 bits.
#[derive(Clone, Copy, Debug, PartialEq, Eq, Hash)]
pub struct U256 {
    pub high: u128,
    pub low: u128,
}

impl U256 {
    /// The number that the two halves stand for.
    pub open spec fn value(self) -> nat {
        (self.high as nat) * 0x1_0000_0000_0000_0000_0000_0000_0000_0000nat + (self.low as nat)
    }

    /// The 256-bit number equal to a 64-bit one.
    pub open spec fn spec_from_u64(number: u64) -> U256 {
        U256 { high: 0, low: number as u128 }
    }

    /// Zero.
    pub fn zero() -> (r: U256)
        ensures
            r == U256::spec_from_u64(0),
            r.value() == 0,
    {
        U256 { high: 0, low: 0 }
    }

    /// Widens a 64-bit number.
    pub fn from_u64(number: u64) -> (r: U256)
        ensures
            r == U256::spec_from_u64(number),
            r.value() == number,
    {
        U256 { high: 0, low: number as u128 }
    }

    /// Whether the number is zero.
    pub fn is_zero(&self) -> (r: bool)
        ensures
            r == (self.value() == 0),
    {
        self.high == 0 && self.low == 0
    }
}

/// What a transaction does.
#[derive(Clone, Copy, Debug, PartialEq, Eq)]
pub enum Action {
    /// Deploys a new contract.
    Create,
    /// Calls the code at the address.
    Call(Address),
}

/// A transaction before it is signed.
#[derive(Clone, Debug, PartialEq, Eq)]
pub struct Transaction {
    pub nonce: U256,
    pub gas_price: U256,
    pub gas: U256,
    pub action: Action,
    pub value: U256,
    pub data: Vec<u8>,
}

/// A transaction together with the sender it claims. This library only
/// produces signatures that are placeholders: such a transaction is executed
/// locally and never relayed.
#[derive(Clone, Debug, PartialEq, Eq)]
pub struct SignedTransaction {
    pub transaction: Transaction,
    pub sender: Address,
}

impl Transaction {
    /// Attributes the transaction to `from` without a real signature.
    pub fn fake_sign(self, from: Address) -> (r: SignedTransaction)
        ensures
            r.transaction == self,
            r.sender == from,
    {
        SignedTransaction { transaction: self, sender: from }
    }
}

/// The block whose state a call runs on.
#[derive(Clone, Copy, Debug, PartialEq, Eq)]
pub enum BlockId {
    /// The first block of the chain.
    Earliest,
    /// The block with the given number.
    Number(u64),
    /// The newest block the node knows.
    Latest,
}

/// What a completed execution gave back.
#[derive(Clone, Debug, PartialEq, Eq)]
pub struct Executed {
    /// The bytes the contract returned.
    pub output: Vec<u8>,
}

} // verus!
