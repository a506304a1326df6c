//! What an execution produces: the ledger of consumed resources, the record
//! of each call and the record of a whole transaction.

use crate::contract_class::EntryPointType;
use crate::definitions::constants::{STEP_FEE_WEIGHT, SYSCALL_FEE_WEIGHT};
use crate::felt::{Address, ClassHash, Felt};
use vstd::prelude::*;

verus! {

/// How a call reaches its code.
#[derive(Clone, Copy, Debug, PartialEq, Eq, Hash, Structural)]
pub enum CallType {
    /// The code of the contract at the called address, in that contract's storage.
    Call,
    /// The code of a class, in the caller's own storage.
    Delegate,
}

/// The kinds of request that a running contract can make.
#[derive(Clone, Copy, Debug, PartialEq, Eq, Hash, Structural)]
pub enum SyscallKind {
    StorageRead,
    StorageWrite,
    CallContract,
    LibraryCall,
    Deploy,
    EmitEvent,
    GetCallerAddress,
}

/// The smaller of `a + b` and the largest 64-bit number.
pub open spec fn saturating_sum(a: u64, b: u64) -> u64 {
    if a + b <= u64::MAX {
        (a + b) as u64
    } else {
        u64::MAX
    }
}

/// Adds without leaving the 64-bit range.
pub fn saturating_add(a: u64, b: u64) -> (r: u64)
    ensures
        r == saturating_sum(a, b),
{
    if a <= u64::MAX - b {
        a + b
    } else {
        u64::MAX
    }
}

/// The running counters of one transaction: the steps of the virtual machine
/// and the requests served, per kind.
#[derive(Clone, Copy, Debug, PartialEq, Eq, Structural)]
pub struct ExecutionResourcesManager {
    pub n_steps: u64,
    pub storage_read: u64,
    pub storage_write: u64,
    pub call_contract: u64,
    pub library_call: u64,
    pub deploy: u64,
    pub emit_event: u64,
    pub get_caller_address: u64,
}

impl ExecutionResourcesManager {
    /// The ledger after one more request of the given kind.
    pub open spec fn counted(self, kind: SyscallKind) -> ExecutionResourcesManager {
        match kind {
            SyscallKind::StorageRead => ExecutionResourcesManager {
                storage_read: saturating_sum(self.storage_read, 1),
                ..self
            },
            SyscallKind::StorageWrite => ExecutionResourcesManager {
                storage_write: saturating_sum(self.storage_write, 1),
                ..self
            },
            SyscallKind::CallContract => ExecutionResourcesManager {
                call_contract: saturating_sum(self.call_contract, 1),
                ..self
            },
            SyscallKind::LibraryCall => ExecutionResourcesManager {
                library_call: saturating_sum(self.library_call, 1),
                ..self
            },
            SyscallKind::Deploy => ExecutionResourcesManager { deploy: saturating_sum(self.deploy, 1), ..self },
            SyscallKind::EmitEvent => ExecutionResourcesManager {
                emit_event: saturating_sum(self.emit_event, 1),
                ..self
            },
            SyscallKind::GetCallerAddress => ExecutionResourcesManager {
                get_caller_address: saturating_sum(self.get_caller_address, 1),
                ..self
            },
        }
    }

    /// The ledger after `steps` more steps of the virtual machine.
    pub open spec fn stepped(self, steps: u64) -> ExecutionResourcesManager {
        ExecutionResourcesManager { n_steps: saturating_sum(self.n_steps, steps), ..self }
    }

    /// The number of requests served, of all kinds.
    pub open spec fn n_syscalls(self) -> nat {
        (self.storage_read + self.storage_write + self.call_contract + self.library_call + self.deploy
            + self.emit_event + self.get_caller_address) as nat
    }

    /// The consumed resources as one number: each step and each request
    /// times its weight.
    pub open spec fn weighted_usage(self) -> nat {
        self.n_steps as nat * STEP_FEE_WEIGHT as nat + self.n_syscalls() * SYSCALL_FEE_WEIGHT as nat
    }

    /// The fee for the consumed resources at the given gas price: the weighted
    /// usage, capped at 64 bits, times the price, capped again.
    pub open spec fn fee(self, gas_price: u64) -> u64 {
        let usage = if self.weighted_usage() <= u64::MAX {
            self.weighted_usage()
        } else {
            u64::MAX as nat
        };
        if usage * gas_price <= u64::MAX {
            (usage * gas_price) as u64
        } else {
            u64::MAX
        }
    }

    /// The ledger in which nothing has been consumed.
    pub open spec fn empty() -> ExecutionResourcesManager {
        ExecutionResourcesManager {
            n_steps: 0,
            storage_read: 0,
            storage_write: 0,
            call_contract: 0,
            library_call: 0,
            deploy: 0,
            emit_event: 0,
            get_caller_address: 0,
        }
    }

    /// A ledger in which nothing has been consumed.
    pub fn new() -> (r: Self)
        ensures
            r == ExecutionResourcesManager::empty(),
            r.n_steps == 0,
            r.n_syscalls() == 0,
            r.weighted_usage() == 0,
    {
        ExecutionResourcesManager {
            n_steps: 0,
            storage_read: 0,
            storage_write: 0,
            call_contract: 0,
            library_call: 0,
            deploy: 0,
            emit_event: 0,
            get_caller_address: 0,
        }
    }

    /// Counts one more request of the given kind.
    pub fn count_syscall(&mut self, kind: SyscallKind)
        ensures
            *final(self) == old(self).counted(kind),
    {
        match kind {
            SyscallKind::StorageRead => {
                self.storage_read = saturating_add(self.storage_read, 1);
            },
            SyscallKind::StorageWrite => {
                self.storage_write = saturating_add(self.storage_write, 1);
            },
            SyscallKind::CallContract => {
                self.call_contract = saturating_add(self.call_contract, 1);
            },
            SyscallKind::LibraryCall => {
                self.library_call = saturating_add(self.library_call, 1);
            },
            SyscallKind::Deploy => {
                self.deploy = saturating_add(self.deploy, 1);
            },
            SyscallKind::EmitEvent => {
                self.emit_event = saturating_add(self.emit_event, 1);
            },
            SyscallKind::GetCallerAddress => {
                self.get_caller_address = saturating_add(self.get_caller_address, 1);
            },
        }
    }

    /// Counts `steps` more steps of the virtual machine.
    pub fn count_steps(&mut self, steps: u64)
        ensures
            *final(self) == old(self).stepped(steps),
    {
        self.n_steps = saturating_add(self.n_steps, steps);
    }

    /// The fee for what has been consumed, at the given gas price.
    pub fn calculate_fee(&self, gas_price: u64) -> (r: u64)
        ensures
            r == self.fee(gas_price),
    {
        let syscalls: u128 = self.storage_read as u128 + self.storage_write as u128
            + self.call_contract as u128 + self.library_call as u128 + self.deploy as u128
            + self.emit_event as u128 + self.get_caller_address as u128;
        assert(self.n_steps * STEP_FEE_WEIGHT == self.n_steps * 1 && syscalls * SYSCALL_FEE_WEIGHT == syscalls
            * 100) by {
            assert(STEP_FEE_WEIGHT == 1 && SYSCALL_FEE_WEIGHT == 100);
        }
        let weighted: u128 = self.n_steps as u128 * STEP_FEE_WEIGHT as u128 + syscalls
            * SYSCALL_FEE_WEIGHT as u128;
        let usage: u64 = if weighted <= u64::MAX as u128 {
            weighted as u64
        } else {
            u64::MAX
        };
        assert(usage * gas_price <= 0xffff_ffff_ffff_ffff * 0xffff_ffff_ffff_ffff) by (nonlinear_arith)
            requires
                0 <= usage <= 0xffff_ffff_ffff_ffff,
                0 <= gas_price <= 0xffff_ffff_ffff_ffff,
        ;
        let total: u128 = usage as u128 * gas_price as u128;
        if total <= u64::MAX as u128 {
            total as u64
        } else {
            u64::MAX
        }
    }
}

/// An event that a contract emitted, with its place among the events of its call.
#[derive(Clone, Debug, PartialEq, Eq)]
pub struct OrderedEvent {
    pub order: usize,
    pub keys: Vec<Felt>,
    pub data: Vec<Felt>,
}

/// The record of one entry-point invocation and of the calls it made.
#[derive(Debug, PartialEq, Eq)]
pub struct CallInfo {
    pub caller_address: Address,
    pub call_type: CallType,
    pub contract_address: Address,
    pub class_hash: ClassHash,
    pub entry_point_selector: Felt,
    pub entry_point_type: EntryPointType,
    pub calldata: Vec<Felt>,
    pub retdata: Vec<Felt>,
    pub n_steps: u64,
    pub events: Vec<OrderedEvent>,
    pub internal_calls: Vec<CallInfo>,
}

/// The record of one transaction: its calls, its fee and what it consumed.
#[derive(Debug, PartialEq, Eq)]
pub struct TransactionExecutionInfo {
    pub validate_info: Option<CallInfo>,
    pub call_info: Option<CallInfo>,
    pub actual_fee: u64,
    pub actual_resources: ExecutionResourcesManager,
}

} // verus!
