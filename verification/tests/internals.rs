use cairo_vm::types::program::Program;
use cairo_vm::types::relocatable::MaybeRelocatable;
use num_bigint::BigUint;
use num_traits::{Num, ToPrimitive};
use starknet_rs::contract_class::{ContractClass, EntryPointType};
use starknet_rs::definitions::constants::{EXECUTE_ENTRY_POINT_SELECTOR, VALIDATE_ENTRY_POINT_SELECTOR};
use starknet_rs::definitions::general_config::StarknetGeneralConfig;
use starknet_rs::errors::ExecutionError;
use starknet_rs::execution::execution_entry_point::{RunOutput, Runner};
use starknet_rs::syscalls::syscall_handler::SyscallHandler;
use starknet_rs::transaction::InvokeFunction;
use starknet_rs::felt::{Address, ClassHash, Felt};
use starknet_rs::state::cached_state::CachedState;
use starknet_rs::state::in_memory_state_reader::InMemoryStateReader;
use starknet_rs::utils::felt_to_hash;
use std::collections::HashMap;

fn felt_str(decimal: &str) -> Felt {
    let n = BigUint::from_str_radix(decimal, 10).unwrap();
    let modulus: BigUint = BigUint::from(1u8) << 128usize;
    let low_part: BigUint = &n % &modulus;
    let high_part: BigUint = &n >> 128usize;
    Felt { hi: high_part.to_u128().unwrap(), lo: low_part.to_u128().unwrap() }
}

// Addresses.
fn test_account_contract_address() -> Address {
    Address(felt_str("257"))
}

fn test_contract_address() -> Address {
    Address(felt_str("256"))
}

// Class hashes.
fn test_account_contract_class_hash() -> Felt {
    felt_str("273")
}

fn test_class_hash() -> Felt {
    felt_str("272")
}

fn test_erc20_contract_class_hash() -> Felt {
    felt_str("4112")
}

// Storage keys.
fn test_erc20_account_balance_key() -> Felt {
    felt_str("1192211877881866289306604115402199097887041303917861778777990838480655617515")
}

fn test_erc20_sequencer_balance_key() -> Felt {
    felt_str("3229073099929281304021185011369329892856197542079132996799046100564060768274")
}

// Others.
fn actual_fee() -> Felt {
    Felt::from_u64(2)
}

/// A class whose body holds `marker` and which declares one external entry
/// point under `marker`.
fn get_contract_class(marker: u64) -> ContractClass {
    let program = Program {
        builtins: Vec::new(),
        prime: String::from("0x800000000000011000000000000000000000000000000000000000000000001"),
        data: vec![MaybeRelocatable::from((0, marker as usize))],
        constants: HashMap::new(),
        main: None,
        start: None,
        end: None,
        hints: HashMap::new(),
        reference_manager: cairo_vm::serde::deserialize_program::ReferenceManager {
            references: Vec::new(),
        },
        identifiers: HashMap::new(),
        error_message_attributes: Vec::new(),
        instruction_locations: None,
    };
    let mut class = ContractClass::new(program);
    class.add_entry_point(EntryPointType::External, Felt::from_u64(marker), marker as usize);
    if marker == ACCOUNT_CONTRACT {
        class.add_entry_point(
            EntryPointType::External,
            Felt::from_u128(VALIDATE_ENTRY_POINT_SELECTOR),
            10,
        );
        class.add_entry_point(
            EntryPointType::External,
            Felt::from_u128(EXECUTE_ENTRY_POINT_SELECTOR),
            11,
        );
    }
    class
}

/// A machine whose every entry point returns its calldata in one step.
struct EchoRunner;

impl Runner<InMemoryStateReader> for EchoRunner {
    fn contract_address(
        &self,
        _deployer: &Address,
        salt: &Felt,
        _class_hash: &ClassHash,
        _constructor_calldata: &Vec<Felt>,
    ) -> Result<Address, ExecutionError> {
        Ok(Address(*salt))
    }

    fn run<'a>(
        &self,
        _class: &ContractClass,
        _entry_point_offset: usize,
        calldata: &Vec<Felt>,
        handler: SyscallHandler<'a, InMemoryStateReader, Self>,
    ) -> (SyscallHandler<'a, InMemoryStateReader, Self>, Result<RunOutput, ExecutionError>) {
        (handler, Ok(RunOutput { retdata: calldata.clone(), n_steps: 1 }))
    }
}

const ACCOUNT_CONTRACT: u64 = 1;
const ERC20_CONTRACT: u64 = 2;
const TEST_CONTRACT: u64 = 3;

fn create_account_tx_test_state() -> (StarknetGeneralConfig, CachedState<InMemoryStateReader>) {
    let general_config = StarknetGeneralConfig::default();

    let test_contract_class_hash = test_class_hash();
    let test_account_class_hash = test_account_contract_class_hash();
    let test_erc20_class_hash = test_erc20_contract_class_hash();
    let class_hash_to_class = vec![
        (test_account_class_hash, get_contract_class(ACCOUNT_CONTRACT)),
        (test_contract_class_hash, get_contract_class(TEST_CONTRACT)),
        (test_erc20_class_hash, get_contract_class(ERC20_CONTRACT)),
    ];

    let test_contract_address = test_contract_address();
    let test_account_address = test_account_contract_address();
    let test_erc20_address = *general_config.starknet_os_config().fee_token_address();
    let address_to_class_hash = vec![
        (test_contract_address, test_contract_class_hash),
        (test_account_address, test_account_class_hash),
        (test_erc20_address, test_erc20_class_hash),
    ];

    let storage_view = vec![
        ((test_erc20_address, test_erc20_sequencer_balance_key()), Felt::zero()),
        ((test_erc20_address, test_erc20_account_balance_key()), actual_fee()),
    ];

    let mut state_reader = InMemoryStateReader::new();
    for (contract_address, class_hash) in address_to_class_hash {
        state_reader.address_to_class_hash.insert(contract_address, felt_to_hash(&class_hash));
        state_reader.address_to_nonce.insert(contract_address, Felt::zero());
        for ((k0, k1), v) in storage_view.iter() {
            if *k0 == contract_address {
                state_reader.address_to_storage.insert((contract_address, felt_to_hash(k1)), *v);
            }
        }
    }
    for (k, v) in class_hash_to_class {
        state_reader.class_hash_to_contract_class.insert(felt_to_hash(&k), v);
    }

    (general_config, CachedState::new(state_reader))
}

#[test]
fn test_create_account_tx_test_state() {
    let (general_config, mut state) = create_account_tx_test_state();

    let value = state.get_storage_at(&(
        *general_config.starknet_os_config().fee_token_address(),
        felt_to_hash(&test_erc20_account_balance_key()),
    ));
    println!("value = {:?}", value);
    assert_eq!(value, Felt::from_u64(2));

    let class_hash = state.get_class_hash_at(&test_contract_address()).unwrap();
    println!("value = {class_hash:?}");
    assert_eq!(class_hash, felt_to_hash(&test_class_hash()));

    let contract_class = state
        .get_contract_class(&felt_to_hash(&test_erc20_contract_class_hash()))
        .unwrap();
    let expected = get_contract_class(ERC20_CONTRACT);
    assert_eq!(contract_class.program, expected.program);
    assert!(contract_class.entry_points.same_entries(&expected.entry_points));
    assert!(!contract_class.entry_points.same_entries(&get_contract_class(TEST_CONTRACT).entry_points));
}

#[test]
fn sequencer_balance_of_test_state_is_zero() {
    let (general_config, mut state) = create_account_tx_test_state();
    let value = state.get_storage_at(&(
        *general_config.starknet_os_config().fee_token_address(),
        felt_to_hash(&test_erc20_sequencer_balance_key()),
    ));
    assert_eq!(value, Felt::zero());
    assert_eq!(state.get_nonce_at(&test_account_contract_address()), Felt::zero());
    assert_eq!(state.get_nonce_at(&test_contract_address()), Felt::zero());
}

fn invoke_tx() -> InvokeFunction {
    let entry_point_selector =
        felt_str("1629174963900209270929724181518648239607275954724935556801269374828746872577");

    let execute_call_data = vec![
        test_contract_address().0,
        entry_point_selector,
        Felt::from_u64(1),
        Felt::from_u64(2),
    ];

    InvokeFunction {
        contract_address: test_account_contract_address(),
        entry_point_selector: Felt::from_u128(EXECUTE_ENTRY_POINT_SELECTOR),
        entry_point_type: EntryPointType::External,
        calldata: execute_call_data,
        max_fee: 2,
        nonce: Felt::zero(),
    }
}

#[test]
fn test_invoke_tx() {
    let (general_config, mut state) = create_account_tx_test_state();

    let invoke_tx = invoke_tx();

    println!("{:?}", &invoke_tx);
    let calldata = invoke_tx.calldata.clone();
    let sender_address = invoke_tx.contract_address;

    let result = invoke_tx.apply(&mut state, &general_config, &EchoRunner);

    println!("{:?}", &result);

    let info = result.unwrap();
    assert_eq!(info.call_info.unwrap().retdata, calldata);
    assert_eq!(info.validate_info.unwrap().contract_address, sender_address);
    assert_eq!(info.actual_fee, 0);
    assert_eq!(state.get_nonce_at(&sender_address), Felt::from_u64(1));
}
