use std::cell::RefCell;

use dapps::address::Address;
use dapps::error::{Error, REGISTRAR_INVALID, REGISTRAR_MISSING};
use dapps::registrar::{
    call_output, call_sender, call_transaction, resolve_registrar, ChainView, FullRegistrar,
    CALL_GAS, REGISTRAR_PARAM,
};
use dapps::transaction::{Action, BlockId, Executed, SignedTransaction, Transaction, U256};

const REGISTRAR_TEXT: &str = "0x1234567890abcdef1234567890abcdef1234abcd";

const REGISTRAR_BYTES: [u8; 20] = [
    0x12, 0x34, 0x56, 0x78, 0x90, 0xab, 0xcd, 0xef, 0x12, 0x34, 0x56, 0x78, 0x90, 0xab, 0xcd, 0xef,
    0x12, 0x34, 0xab, 0xcd,
];

struct Chain {
    registrar: Option<String>,
    nonce: U256,
    outcome: Result<Executed, String>,
    asked_params: RefCell<Vec<String>>,
    asked_nonces: RefCell<Vec<Address>>,
    executed: RefCell<Vec<(SignedTransaction, BlockId)>>,
}

impl Chain {
    fn with(registrar: Option<&str>, nonce: u64, outcome: Result<Vec<u8>, &str>) -> Chain {
        Chain {
            registrar: registrar.map(|text| text.to_string()),
            nonce: U256::from_u64(nonce),
            outcome: outcome.map(|output| Executed { output }).map_err(|e| e.to_string()),
            asked_params: RefCell::new(Vec::new()),
            asked_nonces: RefCell::new(Vec::new()),
            executed: RefCell::new(Vec::new()),
        }
    }
}

impl ChainView for Chain {
    fn additional_param(&self, name: &str) -> Option<String> {
        self.asked_params.borrow_mut().push(name.to_string());
        self.registrar.clone()
    }

    fn latest_nonce(&self, address: &Address) -> U256 {
        self.asked_nonces.borrow_mut().push(*address);
        self.nonce
    }

    fn call(&self, transaction: &SignedTransaction, block: BlockId) -> Result<Executed, String> {
        self.executed.borrow_mut().push((transaction.clone(), block));
        self.outcome.clone()
    }
}

#[test]
fn address_from_hex_reads_forty_digits() {
    let plain = Address::from_hex("1234567890abcdef1234567890abcdef1234abcd");
    assert_eq!(plain, Some(Address { bytes: REGISTRAR_BYTES }));
}

#[test]
fn address_from_hex_accepts_marker() {
    assert_eq!(Address::from_hex(REGISTRAR_TEXT), Some(Address { bytes: REGISTRAR_BYTES }));
}

#[test]
fn address_from_hex_accepts_both_cases() {
    let upper = Address::from_hex("1234567890ABCDEF1234567890abcdef1234ABcd");
    assert_eq!(upper, Some(Address { bytes: REGISTRAR_BYTES }));
    let high = Address::from_hex("ffffffffffffffffffffffffffffffffffffffff");
    assert_eq!(high, Some(Address { bytes: [0xff; 20] }));
    let low = Address::from_hex("0x0000000000000000000000000000000000000000");
    assert_eq!(low, Some(Address::zero()));
}

#[test]
fn address_from_hex_orders_bytes_from_the_left() {
    let address = Address::from_hex("0100000000000000000000000000000000000a2f").unwrap();
    assert_eq!(address.bytes[0], 1);
    assert_eq!(address.bytes[18], 0x0a);
    assert_eq!(address.bytes[19], 0x2f);
}

#[test]
fn address_from_hex_rejects_wrong_lengths() {
    assert_eq!(Address::from_hex(""), None);
    assert_eq!(Address::from_hex("0x"), None);
    assert_eq!(Address::from_hex("1234567890abcdef1234567890abcdef1234abc"), None);
    assert_eq!(Address::from_hex("1234567890abcdef1234567890abcdef1234abcd0"), None);
    assert_eq!(Address::from_hex("0x1234567890abcdef1234567890abcdef1234abc"), None);
    assert_eq!(Address::from_hex("0x1234567890abcdef1234567890abcdef1234abcd00"), None);
}

#[test]
fn address_from_hex_rejects_other_characters() {
    assert_eq!(Address::from_hex("g234567890abcdef1234567890abcdef1234abcd"), None);
    assert_eq!(Address::from_hex("1234567890abcdef1234567890abcdef1234abc "), None);
    assert_eq!(Address::from_hex("0X1234567890abcdef1234567890abcdef1234abcd"), None);
    assert_eq!(Address::from_hex("0x0x34567890abcdef1234567890abcdef1234abcd"), None);
    assert_eq!(Address::from_hex("/234567890abcdef1234567890abcdef1234abcd"), None);
    assert_eq!(Address::from_hex(":234567890abcdef1234567890abcdef1234abcd"), None);
    assert_eq!(Address::from_hex("@234567890abcdef1234567890abcdef1234abcd"), None);
    assert_eq!(Address::from_hex("`234567890abcdef1234567890abcdef1234abcd"), None);
}

#[test]
fn address_from_hex_rejects_text_beyond_ascii() {
    assert_eq!(Address::from_hex("é234567890abcdef1234567890abcdef1234abcd"), None);
    assert_eq!(Address::from_hex("0x1234567890abcdef1234567890abcdef1234abcİ"), None);
}

#[test]
fn zero_address_is_the_default_sender() {
    assert_eq!(Address::zero().bytes, [0u8; 20]);
    assert_eq!(call_sender(), Address::zero());
}

#[test]
fn registrar_is_read_from_the_chain_parameter() {
    let chain = Chain::with(Some(REGISTRAR_TEXT), 0, Ok(vec![]));
    let registrar = FullRegistrar { client: chain };
    assert_eq!(registrar.registrar(), Ok(Address { bytes: REGISTRAR_BYTES }));
    assert_eq!(*registrar.client.asked_params.borrow(), vec!["registrar".to_string()]);
    assert_eq!(REGISTRAR_PARAM, "registrar");
}

#[test]
fn registrar_and_call_of_a_configured_chain() {
    let chain = Chain::with(Some(REGISTRAR_TEXT), 0, Ok(vec![0u8; 32]));
    let registrar = FullRegistrar { client: chain };
    let address = registrar.registrar().unwrap();
    assert_eq!(address.bytes, REGISTRAR_BYTES);
    assert_eq!(registrar.call(address, vec![]), Ok(vec![0u8; 32]));
}

#[test]
fn registrar_absent_is_not_configured() {
    let registrar = FullRegistrar { client: Chain::with(None, 0, Ok(vec![])) };
    assert_eq!(registrar.registrar(), Err(Error::NotConfigured));
    assert_eq!(resolve_registrar(None), Err(Error::NotConfigured));
}

#[test]
fn registrar_malformed_is_invalid_address() {
    for text in ["", "registrar", "0x1234", "0x1234567890abcdef1234567890abcdef1234abcg", "  "] {
        let registrar = FullRegistrar { client: Chain::with(Some(text), 0, Ok(vec![])) };
        assert_eq!(registrar.registrar(), Err(Error::InvalidAddress));
        assert_eq!(resolve_registrar(Some(text.to_string())), Err(Error::InvalidAddress));
    }
}

#[test]
fn registrar_is_resolved_anew_each_time() {
    let mut registrar = FullRegistrar { client: Chain::with(None, 0, Ok(vec![])) };
    assert_eq!(registrar.registrar(), Err(Error::NotConfigured));
    registrar.client.registrar = Some(REGISTRAR_TEXT.to_string());
    assert_eq!(registrar.registrar(), Ok(Address { bytes: REGISTRAR_BYTES }));
    assert_eq!(registrar.client.asked_params.borrow().len(), 2);
}

#[test]
fn call_transaction_is_an_anonymous_free_call() {
    let target = Address { bytes: REGISTRAR_BYTES };
    let probe = call_transaction(U256::from_u64(7), target, vec![1, 2, 3]);
    let expected = SignedTransaction {
        transaction: Transaction {
            nonce: U256 { high: 0, low: 7 },
            gas_price: U256 { high: 0, low: 0 },
            gas: U256 { high: 0, low: 50_000_000 },
            action: Action::Call(target),
            value: U256 { high: 0, low: 0 },
            data: vec![1, 2, 3],
        },
        sender: Address { bytes: [0; 20] },
    };
    assert_eq!(probe, expected);
    assert_eq!(CALL_GAS, 50_000_000);
}

#[test]
fn call_uses_the_latest_nonce_of_the_zero_address() {
    let chain = Chain::with(None, 41, Ok(vec![9]));
    let registrar = FullRegistrar { client: chain };
    let target = Address { bytes: REGISTRAR_BYTES };
    assert_eq!(registrar.call(target, vec![5, 6]), Ok(vec![9]));
    assert_eq!(*registrar.client.asked_nonces.borrow(), vec![Address::zero()]);
    let executed = registrar.client.executed.borrow();
    assert_eq!(executed.len(), 1);
    assert_eq!(executed[0].0.transaction.nonce, U256::from_u64(41));
    assert_eq!(executed[0].0.sender, Address::zero());
    assert_eq!(executed[0].1, BlockId::Latest);
}

#[test]
fn sequential_calls_carry_the_same_transaction() {
    let chain = Chain::with(None, 3, Ok(vec![]));
    let registrar = FullRegistrar { client: chain };
    let target = Address { bytes: [7; 20] };
    assert_eq!(registrar.call(target, vec![1]), Ok(vec![]));
    assert_eq!(registrar.call(target, vec![1]), Ok(vec![]));
    let executed = registrar.client.executed.borrow();
    assert_eq!(executed.len(), 2);
    assert_eq!(executed[0], executed[1]);
    assert_eq!(executed[0].0, call_transaction(U256::from_u64(3), target, vec![1]));
}

#[test]
fn call_follows_a_changed_nonce() {
    let mut registrar = FullRegistrar { client: Chain::with(None, 3, Ok(vec![])) };
    let target = Address { bytes: [7; 20] };
    assert_eq!(registrar.call(target, vec![]), Ok(vec![]));
    registrar.client.nonce = U256 { high: 1, low: 4 };
    assert_eq!(registrar.call(target, vec![]), Ok(vec![]));
    let executed = registrar.client.executed.borrow();
    assert_eq!(executed[0].0.transaction.nonce, U256 { high: 0, low: 3 });
    assert_eq!(executed[1].0.transaction.nonce, U256 { high: 1, low: 4 });
}

#[test]
fn call_is_free_and_bounded_in_gas() {
    let registrar = FullRegistrar { client: Chain::with(None, 0, Ok(vec![])) };
    for data in [vec![], vec![0xde, 0xad], vec![0u8; 100]] {
        assert_eq!(registrar.call(Address { bytes: [1; 20] }, data), Ok(vec![]));
    }
    for (probe, _) in registrar.client.executed.borrow().iter() {
        assert!(probe.transaction.gas_price.is_zero());
        assert!(probe.transaction.value.is_zero());
        assert_eq!(probe.transaction.gas, U256::from_u64(50_000_000));
        assert_eq!(probe.transaction.action, Action::Call(Address { bytes: [1; 20] }));
    }
    assert_eq!(registrar.client.executed.borrow()[1].0.transaction.data, vec![0xde, 0xad]);
}

#[test]
fn call_returns_the_output_untouched() {
    let output: Vec<u8> = (0..=255).collect();
    let registrar = FullRegistrar { client: Chain::with(None, 0, Ok(output.clone())) };
    assert_eq!(registrar.call(Address::zero(), vec![]), Ok(output.clone()));
    assert_eq!(call_output(Ok(Executed { output: output.clone() })), Ok(output));
    assert_eq!(call_output(Ok(Executed { output: vec![] })), Ok(vec![]));
}

#[test]
fn call_failure_carries_the_diagnostic() {
    let registrar = FullRegistrar { client: Chain::with(None, 0, Err("Reverted")) };
    assert_eq!(
        registrar.call(Address::zero(), vec![1]),
        Err(Error::ExecutionFailed("Reverted".to_string()))
    );
    assert_eq!(
        call_output(Err("OutOfGas".to_string())),
        Err(Error::ExecutionFailed("OutOfGas".to_string()))
    );
}

#[test]
fn error_messages() {
    assert_eq!(Error::NotConfigured.message(), "Registrar not defined.");
    assert_eq!(Error::NotConfigured.message(), REGISTRAR_MISSING);
    assert_eq!(Error::InvalidAddress.message(), REGISTRAR_INVALID);
    assert_eq!(Error::ExecutionFailed("Reverted".to_string()).message(), "Reverted");
    assert_eq!(Error::BuildFailed("no server".to_string()).message(), "no server");
}

#[test]
fn u256_from_small_numbers() {
    assert_eq!(U256::zero(), U256 { high: 0, low: 0 });
    assert_eq!(U256::from_u64(u64::MAX), U256 { high: 0, low: u64::MAX as u128 });
    assert!(U256::zero().is_zero());
    assert!(!U256::from_u64(1).is_zero());
    assert!(!U256 { high: 1, low: 0 }.is_zero());
}

#[test]
fn fake_sign_keeps_the_transaction() {
    let transaction = Transaction {
        nonce: U256::from_u64(1),
        gas_price: U256::from_u64(2),
        gas: U256::from_u64(3),
        action: Action::Create,
        value: U256::from_u64(4),
        data: vec![5],
    };
    let signed = transaction.clone().fake_sign(Address { bytes: [6; 20] });
    assert_eq!(signed.transaction, transaction);
    assert_eq!(signed.sender, Address { bytes: [6; 20] });
}
