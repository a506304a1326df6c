//! The fixed numbers of the protocol: selectors, gas costs and fee weights.
//! A selector is the number that the bytes of its name stand for.

use vstd::prelude::*;

verus! {

/// The selector under which an account validates an invocation.
pub const VALIDATE_ENTRY_POINT_SELECTOR: u128 = 0x76616c6964617465;

/// The selector under which an account validates a declaration.
pub const VALIDATE_DECLARE_ENTRY_POINT_SELECTOR: u128 = 0x76616c69646174655f6465636c617265;

/// The selector under which an account validates its own deployment.
pub const VALIDATE_DEPLOY_ENTRY_POINT_SELECTOR: u128 = 0x76616c69646174655f6465706c6f79;

/// The selector under which an account executes an invocation.
pub const EXECUTE_ENTRY_POINT_SELECTOR: u128 = 0x65786563757465;

/// The selector of a constructor.
pub const CONSTRUCTOR_ENTRY_POINT_SELECTOR: u128 = 0x636f6e7374727563746f72;

/// The selector of the request that reads a storage cell.
pub const STORAGE_READ_SELECTOR: u128 = 0x53746f7261676552656164;

/// The selector of the request that writes a storage cell.
pub const STORAGE_WRITE_SELECTOR: u128 = 0x53746f726167655772697465;

/// The selector of the request that calls another contract.
pub const CALL_CONTRACT_SELECTOR: u128 = 0x43616c6c436f6e7472616374;

/// The selector of the request that runs the code of a class in the caller's own storage.
pub const LIBRARY_CALL_SELECTOR: u128 = 0x4c69627261727943616c6c;

/// The selector of the request that deploys a contract.
pub const DEPLOY_SELECTOR: u128 = 0x4465706c6f79;

/// The selector of the request that emits an event.
pub const EMIT_EVENT_SELECTOR: u128 = 0x456d69744576656e74;

/// The selector of the request for the caller's address.
pub const GET_CALLER_ADDRESS_SELECTOR: u128 = 0x47657443616c6c657241646472657373;

/// The gas that reading a storage cell costs.
pub const STORAGE_READ_GAS_COST: u64 = 100;

/// The gas that writing a storage cell costs.
pub const STORAGE_WRITE_GAS_COST: u64 = 500;

/// The gas that a call of another contract or of a class costs, before its arguments.
pub const CALL_CONTRACT_GAS_COST: u64 = 1000;

/// The gas that a deployment costs, before the constructor's arguments.
pub const DEPLOY_GAS_COST: u64 = 2000;

/// The gas that an event costs, before its keys and data.
pub const EMIT_EVENT_GAS_COST: u64 = 200;

/// The gas that asking for the caller's address costs.
pub const GET_CALLER_ADDRESS_GAS_COST: u64 = 50;

/// The gas that each argument, key or data element of a request costs.
pub const GAS_COST_PER_ELEMENT: u64 = 10;

/// The weight of one step of the virtual machine in the fee.
pub const STEP_FEE_WEIGHT: u64 = 1;

/// The weight of one served request in the fee.
pub const SYSCALL_FEE_WEIGHT: u64 = 100;

} // verus!
