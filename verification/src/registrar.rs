//! The read-only bridge to contracts on the chain: it finds the registrar
//! contract and runs calls against the newest state without touching it.

use vstd::prelude::*;
use crate::address::{is_address_text, address_bytes, Address};
use crate::error::Error;
use crate::transaction::{Action, BlockId, Executed, SignedTransaction, Transaction, U256};

verus! {

/// The name of the chain parameter that holds the registrar's address.
pub const REGISTRAR_PARAM: &'static str = "registrar";

/// The gas that every call is given: large enough that no read runs out.
pub const CALL_GAS: u64 = 50_000_000;

/// Access to the chain's current state. The library asks for a parameter,
/// for an account's nonce, and for the local execution of a transaction that
/// is neither stored nor relayed. It assumes nothing about the answers: what
/// it returns is stated in terms of whatever the chain answered.
pub trait ChainView {
    /// The chain's additional parameter of this name, if it has one.
    fn additional_param(&self, name: &str) -> Option<String>;

    /// The newest known nonce of the account.
    fn latest_nonce(&self, address: &Address) -> U256;

    /// Runs the transaction on the state of `block` and discards every
    /// change. The error is the chain's diagnostic text.
    fn call(&self, transaction: &SignedTransaction, block: BlockId) -> Result<Executed, String>;
}

/// Whether `probe` is the transaction that carries a call of `address` with
/// `data` when the sender's nonce is `nonce`: sent by the zero address, free
/// of charge, moving no value, with the fixed gas.
pub open spec fn is_call_probe(
    probe: SignedTransaction,
    nonce: U256,
    address: Address,
    data: Vec<u8>,
) -> bool {
    &&& probe.sender.is_zero()
    &&& probe.transaction.nonce == nonce
    &&& probe.transaction.action == Action::Call(address)
    &&& probe.transaction.gas == U256::spec_from_u64(CALL_GAS)
    &&& probe.transaction.gas_price == U256::spec_from_u64(0)
    &&& probe.transaction.value == U256::spec_from_u64(0)
    &&& probe.transaction.data == data
}

/// What the registrar parameter resolves to.
pub open spec fn registrar_outcome(param: Option<String>, r: Result<Address, Error>) -> bool {
    match param {
        None => r == Err::<Address, Error>(Error::NotConfigured),
        Some(text) => if is_address_text(text@) {
            r is Ok && r->Ok_0@ == address_bytes(text@)
        } else {
            r == Err::<Address, Error>(Error::InvalidAddress)
        },
    }
}

/// What a call returns for each outcome of the execution.
pub open spec fn call_outcome(executed: Result<Executed, String>, r: Result<Vec<u8>, Error>) -> bool {
    match executed {
        Ok(done) => r == Ok::<Vec<u8>, Error>(done.output),
        Err(diagnostic) => r == Err::<Vec<u8>, Error>(Error::ExecutionFailed(diagnostic)),
    }
}

/// The account that every call is sent from: the zero address, so that a
/// read reveals nothing about the node that makes it.
pub fn call_sender() -> (r: Address)
    ensures
        r.is_zero(),
{
    Address::zero()
}

/// Resolves the registrar from the chain parameter: absent, it is not
/// configured; present, it must spell an address.
pub fn resolve_registrar(param: Option<String>) -> (r: Result<Address, Error>)
    ensures
        registrar_outcome(param, r),
{
    match param {
        None => Err(Error::NotConfigured),
        Some(text) => match Address::from_hex(text.as_str()) {
            Some(address) => Ok(address),
            None => Err(Error::InvalidAddress),
        },
    }
}

/// Builds the transaction that carries a call of `address` with `data`,
/// given the sender's newest nonce.
pub fn call_transaction(nonce: U256, address: Address, data: Vec<u8>) -> (r: SignedTransaction)
    ensures
        is_call_probe(r, nonce, address, data),
{
    let from = call_sender();
    Transaction {
        nonce,
        action: Action::Call(address),
        gas: U256::from_u64(CALL_GAS),
        gas_price: U256::zero(),
        value: U256::zero(),
        data,
    }.fake_sign(from)
}

/// Turns the outcome of the execution into the call's result: the output
/// bytes as they are, or the diagnostic as an execution failure.
pub fn call_output(executed: Result<Executed, String>) -> (r: Result<Vec<u8>, Error>)
    ensures
        call_outcome(executed, r),
{
    match executed {
        Ok(done) => Ok(done.output),
        Err(diagnostic) => Err(Error::ExecutionFailed(diagnostic)),
    }
}

/// The registrar of a full node.
pub struct FullRegistrar<C> {
    /// Handle to the chain.
    pub client: C,
}

impl<C: ChainView> FullRegistrar<C> {
    /// Whether `r` is the registrar when the chain answers the question for
    /// its registrar parameter with `param`.
    pub open spec fn resolves(&self, param: Option<String>, r: Result<Address, Error>) -> bool {
        &&& call_ensures(C::additional_param, (&self.client, REGISTRAR_PARAM), param)
        &&& registrar_outcome(param, r)
    }

    /// Whether `r` is the result of calling `address` with `data` in this
    /// exchange with the chain: asked for the newest nonce of the zero
    /// address `from`, the chain gave the nonce of `probe`; `probe` is the
    /// transaction that carries the call at that nonce; and run on the newest
    /// block, it came out as `executed`.
    pub open spec fn answers(
        &self,
        address: Address,
        data: Vec<u8>,
        from: Address,
        probe: SignedTransaction,
        executed: Result<Executed, String>,
        r: Result<Vec<u8>, Error>,
    ) -> bool {
        &&& from.is_zero()
        &&& call_ensures(C::latest_nonce, (&self.client, &from), probe.transaction.nonce)
        &&& is_call_probe(probe, probe.transaction.nonce, address, data)
        &&& call_ensures(C::call, (&self.client, &probe, BlockId::Latest), executed)
        &&& call_outcome(executed, r)
    }

    /// The address of the registrar contract, read anew from the chain's
    /// parameters at every call: what the chain's answer for the registrar
    /// parameter resolves to.
    pub fn registrar(&self) -> (r: Result<Address, Error>)
        ensures
            exists|param: Option<String>| #[trigger] self.resolves(param, r),
    {
        let param = self.client.additional_param(REGISTRAR_PARAM);
        let r = resolve_registrar(param);
        assert(self.resolves(param, r));
        r
    }

    /// Calls the contract at `address` with `data` on the newest state and
    /// returns its output: the chain is asked for the newest nonce of the
    /// zero address, then to run the call's transaction at that nonce on the
    /// newest block, and the outcome of that run decides the result.
    pub fn call(&self, address: Address, data: Vec<u8>) -> (r: Result<Vec<u8>, Error>)
        ensures
            exists|from: Address, probe: SignedTransaction, executed: Result<Executed, String>|
                #[trigger] self.answers(address, data, from, probe, executed, r),
    {
        let from = call_sender();
        let nonce = self.client.latest_nonce(&from);
        let probe = call_transaction(nonce, address, data);
        let executed = self.client.call(&probe, BlockId::Latest);
        let r = call_output(executed);
        assert(self.answers(address, data, from, probe, executed, r));
        r
    }
}

/// A registrar parameter that is absent resolves to `NotConfigured`.
pub proof fn absent_registrar_is_not_configured(r: Result<Address, Error>)
    requires
        registrar_outcome(None, r),
    ensures
        r == Err::<Address, Error>(Error::NotConfigured),
{
}

/// A registrar parameter that does not spell an address resolves to
/// `InvalidAddress`, whatever else it holds.
pub proof fn malformed_registrar_is_invalid(text: String, r: Result<Address, Error>)
    requires
        !is_address_text(text@),
        registrar_outcome(Some(text), r),
    ensures
        r == Err::<Address, Error>(Error::InvalidAddress),
{
}

/// Two calls made at the same nonce, to the same address and with the same
/// data, are carried by the same transaction: a call leaves no trace that a
/// later one could see.
pub proof fn call_probe_is_unique(
    first: SignedTransaction,
    second: SignedTransaction,
    nonce: U256,
    address: Address,
    data: Vec<u8>,
)
    requires
        is_call_probe(first, nonce, address, data),
        is_call_probe(second, nonce, address, data),
    ensures
        first == second,
{
    broadcast use vstd::array::axiom_array_ext_equal;
    assert forall|i: int| 0 <= i < 20 implies first.sender.bytes[i] == second.sender.bytes[i] by {
        assert(first.sender@[i] == 0);
        assert(second.sender@[i] == 0);
    }
    assert(first.sender.bytes =~= second.sender.bytes);
}

/// A call costs nothing and moves nothing: its gas price and value are
/// zero, and its gas is the fixed bound.
pub proof fn call_probe_is_free(probe: SignedTransaction, nonce: U256, address: Address, data: Vec<u8>)
    requires
        is_call_probe(probe, nonce, address, data),
    ensures
        probe.transaction.gas_price.value() == 0,
        probe.transaction.value.value() == 0,
        probe.transaction.gas.value() == 50_000_000,
        probe.transaction.nonce == nonce,
{
}

} // verus!
