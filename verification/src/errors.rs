//! The conditions under which an operation of the library fails.

use crate::felt::{Address, ClassHash, Felt};
use vstd::prelude::*;

verus! {

/// A fault met while reading or priming the state.
#[derive(Clone, Copy, Debug, PartialEq, Eq)]
pub enum StateError {
    /// No contract is deployed at the address.
    NotDeployed(Address),
    /// The cache was primed after it had already been read, written or primed.
    StateCacheAlreadyInitialized,
    /// No compiled class is known under the class hash.
    ClassNotFound(ClassHash),
}

/// A fault met while a request of the virtual machine is decoded or served.
#[derive(Clone, Copy, Debug, PartialEq, Eq)]
pub enum SyscallHandlerError {
    /// The address is not mapped, or holds a value of another kind.
    SegmentationFault,
    /// A value does not fit the width that its use demands.
    IntegerOverflow,
    /// The selector names no known request.
    UnknownSyscall,
    /// The remaining gas does not cover the request.
    OutOfGas,
}

/// Why an entry point did not run to its end.
#[derive(Clone, Copy, Debug, PartialEq, Eq)]
pub enum ExecutionError {
    /// A cell or class that the call needs is not there.
    State(StateError),
    /// A request of the running contract could not be decoded or served.
    Syscall(SyscallHandlerError),
    /// The class declares no entry point of the kind asked for under the selector.
    EntryPointNotFound,
    /// The virtual machine halted with a fault, or the contract reverted.
    VirtualMachine,
    /// A contract is deployed at the address already.
    ContractAddressUnavailable(Address),
    /// The class takes no constructor arguments, and some were given.
    UnexpectedConstructorCalldata,
}

/// Why a transaction was not applied.
#[derive(Clone, Copy, Debug, PartialEq, Eq)]
pub enum TransactionError {
    /// The account refused the transaction, or its validation did not run to its end.
    ValidationFailed(ExecutionError),
    /// An entry point that the transaction invokes did not run to its end.
    Execution(ExecutionError),
    /// The fee that the transaction consumed exceeds what its sender offers.
    FeeTooLow { max_fee: u64, actual_fee: u64 },
    /// The nonce of the transaction is not the one that the account expects.
    NonceMismatch { expected: Felt, found: Felt },
    /// A contract is deployed at the address already.
    ContractAddressUnavailable(Address),
    /// The class takes no constructor arguments, and some were given.
    UnexpectedConstructorCalldata,
    /// The transaction ran no call whose return data could be handed out.
    EmptyCallInfo,
}

} // verus!
