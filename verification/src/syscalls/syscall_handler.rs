//! Serving the requests of a running contract against its scope, for gas.

use crate::contract_class::EntryPointType;
use crate::definitions::constants::{
    CALL_CONTRACT_GAS_COST, DEPLOY_GAS_COST, EMIT_EVENT_GAS_COST, GAS_COST_PER_ELEMENT,
    GET_CALLER_ADDRESS_GAS_COST, STORAGE_READ_GAS_COST, STORAGE_WRITE_GAS_COST,
};
use crate::definitions::general_config::StarknetGeneralConfig;
use crate::errors::{ExecutionError, SyscallHandlerError};
use crate::execution::deployment::{deploy_contract, deployed};
use crate::execution::execution_entry_point::{ExecutionEntryPoint, Runner};
use crate::execution::objects::{CallInfo, CallType, ExecutionResourcesManager, OrderedEvent, SyscallKind};
use crate::felt::{copy_felts, felt_hash, Address, ClassHash, Felt};
use crate::state::cached_state::CachedState;
use crate::state::state_api::StateReader;
use crate::syscalls::syscall_request::{
    read_request, request_at, request_readable, SyscallRequest, SyscallRequestView,
};
use crate::syscalls::syscall_response::{ResponseBody, SyscallResponse};
use crate::utils::{felt_to_hash, Relocatable};
use cairo_vm::vm::vm_core::VirtualMachine;
use vstd::prelude::*;

verus! {

/// The gas that a request costs: a fixed amount per kind, and for a call or
/// an event an amount for each argument, key or data element.
pub open spec fn gas_cost(request: SyscallRequestView) -> nat {
    match request {
        SyscallRequestView::StorageRead { .. } => STORAGE_READ_GAS_COST as nat,
        SyscallRequestView::StorageWrite { .. } => STORAGE_WRITE_GAS_COST as nat,
        SyscallRequestView::CallContract { calldata, .. } => CALL_CONTRACT_GAS_COST as nat + calldata.len()
            * GAS_COST_PER_ELEMENT as nat,
        SyscallRequestView::LibraryCall { calldata, .. } => CALL_CONTRACT_GAS_COST as nat + calldata.len()
            * GAS_COST_PER_ELEMENT as nat,
        SyscallRequestView::Deploy { constructor_calldata, .. } => DEPLOY_GAS_COST as nat
            + constructor_calldata.len() * GAS_COST_PER_ELEMENT as nat,
        SyscallRequestView::EmitEvent { keys, data } => EMIT_EVENT_GAS_COST as nat + (keys.len()
            + data.len()) * GAS_COST_PER_ELEMENT as nat,
        SyscallRequestView::GetCallerAddress => GET_CALLER_ADDRESS_GAS_COST as nat,
    }
}

/// The gas that `request` costs.
pub fn request_cost(request: &SyscallRequest) -> (r: u128)
    ensures
        r == gas_cost(request@),
{
    assert(GAS_COST_PER_ELEMENT == 10);
    match request {
        SyscallRequest::StorageRead { .. } => STORAGE_READ_GAS_COST as u128,
        SyscallRequest::StorageWrite { .. } => STORAGE_WRITE_GAS_COST as u128,
        SyscallRequest::CallContract { calldata, .. } => {
            assert(calldata@.len() * GAS_COST_PER_ELEMENT == calldata@.len() * 10);
            CALL_CONTRACT_GAS_COST as u128 + calldata.len() as u128 * GAS_COST_PER_ELEMENT as u128
        },
        SyscallRequest::LibraryCall { calldata, .. } => {
            assert(calldata@.len() * GAS_COST_PER_ELEMENT == calldata@.len() * 10);
            CALL_CONTRACT_GAS_COST as u128 + calldata.len() as u128 * GAS_COST_PER_ELEMENT as u128
        },
        SyscallRequest::Deploy { constructor_calldata, .. } => {
            assert(constructor_calldata@.len() * GAS_COST_PER_ELEMENT == constructor_calldata@.len() * 10);
            DEPLOY_GAS_COST as u128 + constructor_calldata.len() as u128 * GAS_COST_PER_ELEMENT as u128
        },
        SyscallRequest::EmitEvent { keys, data } => {
            assert((keys@.len() + data@.len()) * GAS_COST_PER_ELEMENT == (keys@.len() + data@.len()) * 10);
            EMIT_EVENT_GAS_COST as u128 + (keys.len() as u128 + data.len() as u128)
                * GAS_COST_PER_ELEMENT as u128
        },
        SyscallRequest::GetCallerAddress => GET_CALLER_ADDRESS_GAS_COST as u128,
    }
}

/// Pays `cost` out of `gas`: the gas left, or `OutOfGas` where the cost
/// exceeds the gas.
pub fn charge(gas: u64, cost: u128) -> (r: Result<u64, SyscallHandlerError>)
    ensures
        r == (if gas >= cost {
            Ok::<u64, SyscallHandlerError>((gas - cost) as u64)
        } else {
            Err::<u64, SyscallHandlerError>(SyscallHandlerError::OutOfGas)
        }),
{
    if gas as u128 >= cost {
        Ok((gas as u128 - cost) as u64)
    } else {
        Err(SyscallHandlerError::OutOfGas)
    }
}

/// How the end of a nested invocation is recorded: a record joins the calls
/// recorded before and its returned data is the result; a fault is the
/// result and the calls stay as they were.
pub open spec fn call_recorded(
    before: Seq<CallInfo>,
    after: Seq<CallInfo>,
    result: Result<CallInfo, ExecutionError>,
    r: Result<Vec<Felt>, ExecutionError>,
) -> bool {
    match result {
        Ok(info) => after == before.push(info) && (match r {
            Ok(retdata) => retdata@ == info.retdata@,
            Err(_) => false,
        }),
        Err(e) => after == before && r == Err::<Vec<Felt>, ExecutionError>(e),
    }
}

/// What serves the requests of one running invocation: the scope that the
/// invocation runs in, the ledger of resources, and the events and calls
/// recorded so far.
pub struct SyscallHandler<'a, T, R> {
    pub runner: &'a R,
    pub config: &'a StarknetGeneralConfig,
    pub state: CachedState<T>,
    pub resources: ExecutionResourcesManager,
    pub caller_address: Address,
    pub contract_address: Address,
    pub events: Vec<OrderedEvent>,
    pub internal_calls: Vec<CallInfo>,
}

impl<'a, T: StateReader + Clone, R: Runner<T>> SyscallHandler<'a, T, R> {
    /// A handler for an invocation of `contract_address` by `caller_address`
    /// that runs in the scope `state`.
    pub fn new(
        runner: &'a R,
        config: &'a StarknetGeneralConfig,
        state: CachedState<T>,
        resources: ExecutionResourcesManager,
        caller_address: Address,
        contract_address: Address,
    ) -> (r: Self)
        ensures
            r.runner == runner,
            r.config == config,
            r.state == state,
            r.resources == resources,
            r.caller_address == caller_address,
            r.contract_address == contract_address,
            r.events@.len() == 0,
            r.internal_calls@.len() == 0,
    {
        SyscallHandler {
            runner,
            config,
            state,
            resources,
            caller_address,
            contract_address,
            events: Vec::new(),
            internal_calls: Vec::new(),
        }
    }

    /// Everything but the scope, the ledger, the events and the calls stays
    /// as it is.
    pub open spec fn same_context(&self, other: &Self) -> bool {
        &&& self.runner == other.runner
        &&& self.config == other.config
        &&& self.caller_address == other.caller_address
        &&& self.contract_address == other.contract_address
        &&& self.state.state_reader == other.state.state_reader
    }

    /// The scope, the ledger and the records after a storage read of `key`
    /// that yielded `value`: a cached cell leaves the scope as it is, and for
    /// another the value is noted as the one first observed.
    pub open spec fn read_served(&self, after: &Self, key: Felt, value: Felt) -> bool {
        let entry = (self.contract_address, felt_hash(key));
        &&& after.resources == self.resources.counted(SyscallKind::StorageRead)
        &&& after.events == self.events
        &&& after.internal_calls == self.internal_calls
        &&& after.state.cache@.get_storage(entry) == Some(value)
        &&& self.state.cache@.get_storage(entry).is_some() ==> after.state == self.state
        &&& self.state.cache@.get_storage(entry).is_none() ==> after.state.cache@
            == self.state.cache@.record_storage_initial(entry, value)
    }

    /// The scope, the ledger and the records after `value` was written to
    /// the cell `key`.
    pub open spec fn write_served(&self, after: &Self, key: Felt, value: Felt) -> bool {
        &&& after.resources == self.resources.counted(SyscallKind::StorageWrite)
        &&& after.events == self.events
        &&& after.internal_calls == self.internal_calls
        &&& after.state.cache@ == self.state.cache@.write_storage(
            (self.contract_address, felt_hash(key)),
            value,
        )
    }

    /// The scope, the ledger and the records after an event was emitted.
    pub open spec fn event_served(&self, after: &Self, keys: Vec<Felt>, data: Vec<Felt>) -> bool {
        &&& after.resources == self.resources.counted(SyscallKind::EmitEvent)
        &&& after.state == self.state
        &&& after.internal_calls == self.internal_calls
        &&& after.events@ == self.events@.push(
            (OrderedEvent { order: self.events@.len() as usize, keys, data }),
        )
    }

    /// The scope, the ledger and the records after the caller's address was
    /// asked for.
    pub open spec fn caller_served(&self, after: &Self) -> bool {
        &&& after.resources == self.resources.counted(SyscallKind::GetCallerAddress)
        &&& after.state == self.state
        &&& after.events == self.events
        &&& after.internal_calls == self.internal_calls
    }

    /// The scope and the records after a nested call that ran to its end
    /// and returned `retdata`: one more call is recorded, and what the scope
    /// first observed is as before.
    pub open spec fn call_served(&self, after: &Self, retdata: Vec<Felt>) -> bool {
        &&& after.events == self.events
        &&& after.internal_calls@.len() == self.internal_calls@.len() + 1
        &&& after.internal_calls@.take(self.internal_calls@.len() as int) == self.internal_calls@
        &&& after.internal_calls@.last().retdata@ == retdata@
        &&& after.state.cache@.class_hash_initial_values == self.state.cache@.class_hash_initial_values
        &&& after.state.cache@.nonce_initial_values == self.state.cache@.nonce_initial_values
        &&& after.state.cache@.storage_initial_values == self.state.cache@.storage_initial_values
    }

    /// The scope and the records after a nested call that did not run to
    /// its end: nothing of it is kept.
    pub open spec fn call_dropped(&self, after: &Self) -> bool {
        &&& after.events == self.events
        &&& after.internal_calls == self.internal_calls
        &&& after.state == self.state
    }

    /// Reads a cell of the running contract's own storage.
    pub fn storage_read(&mut self, key: Felt) -> (r: Felt)
        ensures
            final(self).same_context(old(self)),
            old(self).read_served(final(self), key, r),
    {
        self.resources.count_syscall(SyscallKind::StorageRead);
        let entry = (self.contract_address, felt_to_hash(&key));
        self.state.get_storage_at(&entry)
    }

    /// Writes a cell of the running contract's own storage.
    pub fn storage_write(&mut self, key: Felt, value: Felt)
        ensures
            final(self).same_context(old(self)),
            old(self).write_served(final(self), key, value),
    {
        self.resources.count_syscall(SyscallKind::StorageWrite);
        let entry = (self.contract_address, felt_to_hash(&key));
        self.state.set_storage_at(entry, value);
    }

    /// Records an event behind those recorded so far.
    pub fn emit_event(&mut self, keys: Vec<Felt>, data: Vec<Felt>)
        ensures
            final(self).same_context(old(self)),
            old(self).event_served(final(self), keys, data),
    {
        self.resources.count_syscall(SyscallKind::EmitEvent);
        let order = self.events.len();
        self.events.push(OrderedEvent { order, keys, data });
    }

    /// Records the end of a nested invocation: its record joins the calls
    /// recorded so far and its returned data is handed out, or its fault is
    /// handed on.
    pub fn record_call(&mut self, result: Result<CallInfo, ExecutionError>) -> (r: Result<
        Vec<Felt>,
        ExecutionError,
    >)
        ensures
            final(self).same_context(old(self)),
            final(self).state == old(self).state,
            final(self).resources == old(self).resources,
            final(self).events == old(self).events,
            call_recorded(old(self).internal_calls@, final(self).internal_calls@, result, r),
            result is Err ==> *final(self) == *old(self),
    {
        match result {
            Ok(info) => {
                let retdata = copy_felts(&info.retdata);
                self.internal_calls.push(info);
                Ok(retdata)
            },
            Err(e) => Err(e),
        }
    }

    /// What holds of every nested invocation that the handler makes: the
    /// request is counted, the invocation runs against the scope with some
    /// result, and that result is recorded.
    pub open spec fn called(
        &self,
        after: &Self,
        kind: SyscallKind,
        entry_point: ExecutionEntryPoint,
        r: Result<Vec<Felt>, ExecutionError>,
    ) -> bool {
        exists|result: Result<CallInfo, ExecutionError>| #[trigger]
            entry_point.ran(
                self.runner,
                self.config,
                self.state,
                after.state,
                self.resources.counted(kind),
                after.resources,
                result,
            ) && call_recorded(self.internal_calls@, after.internal_calls@, result, r)
    }

    /// Runs a nested invocation in the scope of this handler and records it.
    /// If it runs to its end, its writes are merged into the scope and its
    /// returned data is handed out; if not, the scope is as it was before.
    pub fn call(&mut self, kind: SyscallKind, entry_point: ExecutionEntryPoint) -> (r: Result<
        Vec<Felt>,
        ExecutionError,
    >)
        ensures
            final(self).same_context(old(self)),
            match r {
                Ok(retdata) => old(self).call_served(final(self), retdata),
                Err(_) => old(self).call_dropped(final(self)),
            },
            old(self).called(final(self), kind, entry_point, r),
    {
        self.resources.count_syscall(kind);
        let result = entry_point.execute(&mut self.state, self.config, self.runner, &mut self.resources);
        let ghost before = self.internal_calls@;
        let ghost ran = result;
        let r = self.record_call(result);
        proof {
            assert(entry_point.ran(
                old(self).runner,
                old(self).config,
                old(self).state,
                self.state,
                old(self).resources.counted(kind),
                self.resources,
                ran,
            ));
            assert(self.internal_calls@.take(before.len() as int) =~= before);
            if ran is Ok {
                assert(self.internal_calls@.last() == ran.unwrap());
            }
        }
        r
    }

    /// The scope and the records after a deployment of the class `hash` at
    /// `address` that went through: the address holds the class, at most
    /// one call is recorded, and what the scope first observed is as before.
    pub open spec fn deployed_at(&self, after: &Self, hash: ClassHash, address: Address) -> bool {
        &&& after.events == self.events
        &&& after.internal_calls@.len() <= self.internal_calls@.len() + 1
        &&& after.internal_calls@.take(self.internal_calls@.len() as int) == self.internal_calls@
        &&& after.state.cache@.get_class_hash(address) == Some(hash)
        &&& after.state.cache@.class_hash_initial_values == self.state.cache@.class_hash_initial_values
        &&& after.state.cache@.nonce_initial_values == self.state.cache@.nonce_initial_values
        &&& after.state.cache@.storage_initial_values == self.state.cache@.storage_initial_values
    }

    /// The scope and the records after a deployment at `address` that went
    /// through, where the request names the class by the number `class_hash`.
    pub open spec fn deploy_served(&self, after: &Self, class_hash: Felt, address: Address) -> bool {
        self.deployed_at(after, felt_hash(class_hash), address)
    }

    /// `derived` is what the machinery outside may answer when it is asked
    /// for the address of a deployment by the running contract.
    pub open spec fn runner_may_derive(
        &self,
        salt: Felt,
        hash: ClassHash,
        constructor_calldata: Vec<Felt>,
        derived: Result<Address, ExecutionError>,
    ) -> bool {
        call_ensures(
            R::contract_address,
            (self.runner, &self.contract_address, &salt, &hash, &constructor_calldata),
            derived,
        )
    }

    /// How the end of a deployment that ran in `scope` is recorded: where it
    /// went through, the writes of `scope` are merged, the record of the
    /// constructor, if one ran, joins the calls recorded before, and the
    /// address is the result; where it did not, its fault is the result and
    /// nothing changes.
    pub open spec fn deployment_recorded(
        &self,
        after: &Self,
        scope: CachedState<T>,
        address: Address,
        deployed: Result<Option<CallInfo>, ExecutionError>,
        r: Result<Address, ExecutionError>,
    ) -> bool {
        match deployed {
            Ok(constructed) => r == Ok::<Address, ExecutionError>(address) && after.state.cache@
                == self.state.cache@.update_writes_from_other(scope.cache@) && after.internal_calls@ == (
            match constructed {
                Some(info) => self.internal_calls@.push(info),
                None => self.internal_calls@,
            }),
            Err(e) => r == Err::<Address, ExecutionError>(e) && after.state == self.state
                && after.internal_calls == self.internal_calls,
        }
    }

    /// Records the end of a deployment that ran in `scope`.
    pub fn record_deployment(
        &mut self,
        scope: &CachedState<T>,
        address: Address,
        deployed: Result<Option<CallInfo>, ExecutionError>,
    ) -> (r: Result<Address, ExecutionError>)
        ensures
            final(self).same_context(old(self)),
            final(self).resources == old(self).resources,
            final(self).events == old(self).events,
            old(self).deployment_recorded(final(self), *scope, address, deployed, r),
    {
        match deployed {
            Ok(constructed) => {
                self.state.merge_child(scope);
                match constructed {
                    Some(info) => {
                        self.internal_calls.push(info);
                    },
                    None => {},
                }
                Ok(address)
            },
            Err(e) => Err(e),
        }
    }

    /// What holds of every deployment at `address` that the handler makes:
    /// it runs in a copy of the scope, with the ledger as `resources_before`
    /// has it, and its end is recorded.
    pub open spec fn deployment_made(
        &self,
        after: &Self,
        resources_before: ExecutionResourcesManager,
        address: Address,
        hash: ClassHash,
        constructor_calldata: Seq<Felt>,
        r: Result<Address, ExecutionError>,
    ) -> bool {
        exists|scope: CachedState<T>, ended: CachedState<T>, result: Result<Option<CallInfo>, ExecutionError>|
            scope.cache@ == self.state.cache@ && cloned::<T>(self.state.state_reader, scope.state_reader)
                && #[trigger] deployed(
                self.runner,
                self.config,
                scope,
                ended,
                resources_before,
                after.resources,
                address,
                hash,
                constructor_calldata,
                self.contract_address,
                result,
            ) && self.deployment_recorded(after, ended, address, result, r)
    }

    /// Deploys the class `hash` at `address` on behalf of the running
    /// contract and runs the constructor.  An address at which the scope
    /// has a class hash cached is refused.  If the deployment does not go
    /// through, the scope is as it was before.
    pub fn deploy_at(&mut self, address: Address, hash: ClassHash, constructor_calldata: &Vec<Felt>) -> (r:
        Result<Address, ExecutionError>)
        ensures
            final(self).same_context(old(self)),
            match r {
                Ok(deployed) => deployed == address && old(self).deployed_at(final(self), hash, address),
                Err(_) => old(self).call_dropped(final(self)),
            },
            old(self).state.cache@.get_class_hash(address).is_some() ==> r == Err::<Address, ExecutionError>(
                ExecutionError::ContractAddressUnavailable(address),
            ),
            old(self).deployment_made(
                final(self),
                old(self).resources,
                address,
                hash,
                constructor_calldata@,
                r,
            ),
    {
        let mut scope = self.state.clone();
        let ghost copy = scope;
        let deployed_result = deploy_contract(
            &mut scope,
            self.config,
            self.runner,
            &mut self.resources,
            address,
            hash,
            constructor_calldata,
            self.contract_address,
        );
        let ghost before = self.internal_calls@;
        let ghost result = deployed_result;
        let r = self.record_deployment(&scope, address, deployed_result);
        proof {
            assert(self.internal_calls@.take(before.len() as int) =~= before);
            assert(deployed(
                old(self).runner,
                old(self).config,
                copy,
                scope,
                old(self).resources,
                self.resources,
                address,
                hash,
                constructor_calldata@,
                old(self).contract_address,
                result,
            ));
        }
        r
    }

    /// What holds of every deployment that a request asks for: the request
    /// is counted and the address derived outside.  A fault of the
    /// derivation is the result; otherwise the deployment is made at the
    /// derived address.
    pub open spec fn deploy_requested(
        &self,
        after: &Self,
        class_hash: Felt,
        salt: Felt,
        constructor_calldata: Vec<Felt>,
        r: Result<Address, ExecutionError>,
    ) -> bool {
        exists|derived: Result<Address, ExecutionError>| #[trigger]
            self.runner_may_derive(salt, felt_hash(class_hash), constructor_calldata, derived) && (
            match derived {
                Ok(address) => self.deployment_made(
                    after,
                    self.resources.counted(SyscallKind::Deploy),
                    address,
                    felt_hash(class_hash),
                    constructor_calldata@,
                    r,
                ),
                Err(e) => r == Err::<Address, ExecutionError>(e) && after.resources == self.resources.counted(
                    SyscallKind::Deploy,
                ),
            })
    }

    /// Deploys a class at the address that its deployment by the running
    /// contract derives, and runs the constructor.  The address is derived
    /// outside the library; an address at which the scope has a class hash
    /// cached is refused.  If the deployment does not go through, the scope
    /// is as it was before.
    pub fn deploy(&mut self, class_hash: Felt, salt: Felt, constructor_calldata: Vec<Felt>) -> (r: Result<
        Address,
        ExecutionError,
    >)
        ensures
            final(self).same_context(old(self)),
            match r {
                Ok(address) => old(self).deploy_served(final(self), class_hash, address),
                Err(_) => old(self).call_dropped(final(self)),
            },
            old(self).deploy_requested(final(self), class_hash, salt, constructor_calldata, r),
    {
        self.resources.count_syscall(SyscallKind::Deploy);
        let hash = felt_to_hash(&class_hash);
        let derived = self.runner.contract_address(&self.contract_address, &salt, &hash, &constructor_calldata);
        assert(old(self).runner_may_derive(salt, felt_hash(class_hash), constructor_calldata, derived));
        match derived {
            Ok(address) => {
                let ghost counted = *self;
                let r = self.deploy_at(address, hash, &constructor_calldata);
                proof {
                    assert(counted.deployment_made(
                        &*self,
                        counted.resources,
                        address,
                        hash,
                        constructor_calldata@,
                        r,
                    ));
                    assert(old(self).deployment_made(
                        &*self,
                        old(self).resources.counted(SyscallKind::Deploy),
                        address,
                        felt_hash(class_hash),
                        constructor_calldata@,
                        r,
                    ));
                }
                r
            },
            Err(e) => Err(e),
        }
    }

    /// The invocation that a request to call a contract or a class asks for.
    pub open spec fn requested_call(&self, request: SyscallRequest) -> ExecutionEntryPoint {
        match request {
            SyscallRequest::LibraryCall {
                class_hash,
                entry_point_selector,
                calldata,
            } => ExecutionEntryPoint {
                call_type: CallType::Delegate,
                contract_address: self.contract_address,
                class_hash: Some(felt_hash(class_hash)),
                entry_point_selector,
                entry_point_type: EntryPointType::Library,
                calldata,
                caller_address: self.caller_address,
            },
            SyscallRequest::CallContract {
                contract_address,
                entry_point_selector,
                calldata,
            } => ExecutionEntryPoint {
                call_type: CallType::Call,
                contract_address,
                class_hash: None,
                entry_point_selector,
                entry_point_type: EntryPointType::External,
                calldata,
                caller_address: self.contract_address,
            },
            _ => arbitrary(),
        }
    }

    /// What serving `request` leaves behind, given the result `r`.
    pub open spec fn request_served(
        &self,
        after: &Self,
        request: SyscallRequest,
        r: Result<SyscallResponse, ExecutionError>,
    ) -> bool {
        match request {
            SyscallRequest::StorageRead { key } => match r {
                Ok(response) => match response.spec_body() {
                    ResponseBody::StorageRead { value } => self.read_served(after, key, value),
                    _ => false,
                },
                Err(_) => false,
            },
            SyscallRequest::StorageWrite { key, value } => match r {
                Ok(response) => response.spec_body() == ResponseBody::StorageWrite && self.write_served(
                    after,
                    key,
                    value,
                ),
                Err(_) => false,
            },
            SyscallRequest::EmitEvent { keys, data } => match r {
                Ok(response) => response.spec_body() == ResponseBody::EmitEvent && self.event_served(
                    after,
                    keys,
                    data,
                ),
                Err(_) => false,
            },
            SyscallRequest::GetCallerAddress => match r {
                Ok(response) => response.spec_body() == (ResponseBody::GetCallerAddress {
                    address: self.caller_address,
                }) && self.caller_served(after),
                Err(_) => false,
            },
            SyscallRequest::CallContract { .. } => match r {
                Ok(response) => match response.spec_body() {
                    ResponseBody::CallContract { retdata } => self.call_served(after, retdata) && self.called(
                        after,
                        SyscallKind::CallContract,
                        self.requested_call(request),
                        Ok(retdata),
                    ),
                    _ => false,
                },
                Err(e) => self.call_dropped(after) && self.called(
                    after,
                    SyscallKind::CallContract,
                    self.requested_call(request),
                    Err(e),
                ),
            },
            SyscallRequest::LibraryCall { .. } => match r {
                Ok(response) => match response.spec_body() {
                    ResponseBody::CallContract { retdata } => self.call_served(after, retdata) && self.called(
                        after,
                        SyscallKind::LibraryCall,
                        self.requested_call(request),
                        Ok(retdata),
                    ),
                    ResponseBody::Failure => self.call_dropped(after) && exists|e: ExecutionError| #[trigger]
                        self.called(
                            after,
                            SyscallKind::LibraryCall,
                            self.requested_call(request),
                            Err(e),
                        ),
                    _ => false,
                },
                Err(_) => false,
            },
            SyscallRequest::Deploy { class_hash, contract_address_salt, constructor_calldata } => match r {
                Ok(response) => match response.spec_body() {
                    ResponseBody::Deploy { contract_address } => self.deploy_served(
                        after,
                        class_hash,
                        contract_address,
                    ) && self.deploy_requested(
                        after,
                        class_hash,
                        contract_address_salt,
                        constructor_calldata,
                        Ok(contract_address),
                    ),
                    _ => false,
                },
                Err(e) => self.call_dropped(after) && self.deploy_requested(
                    after,
                    class_hash,
                    contract_address_salt,
                    constructor_calldata,
                    Err(e),
                ),
            },
        }
    }

    /// Serves a decoded request for which the contract offers `gas`.
    ///
    /// A request that costs more than `gas` fails with `OutOfGas` and changes
    /// nothing.  Otherwise the request is counted and served, and the
    /// response carries the gas left.  A call of another contract or a
    /// deployment that does not go through fails the request with its
    /// fault; a call of a class that does not run to its end is answered
    /// with `Failure`.  Either way the scope is then as it was before.
    pub fn execute_request(&mut self, request: SyscallRequest, gas: u64) -> (r: Result<
        SyscallResponse,
        ExecutionError,
    >)
        ensures
            final(self).same_context(old(self)),
            gas < gas_cost(request@) ==> r == Err::<SyscallResponse, ExecutionError>(
                ExecutionError::Syscall(SyscallHandlerError::OutOfGas),
            ) && *final(self) == *old(self),
            gas >= gas_cost(request@) ==> old(self).request_served(final(self), request, r),
            gas >= gas_cost(request@) ==> (match r {
                Ok(response) => response.spec_gas() == gas - gas_cost(request@),
                Err(_) => true,
            }),
    {
        let cost = request_cost(&request);
        let left = match charge(gas, cost) {
            Ok(left) => left,
            Err(e) => {
                return Err(ExecutionError::Syscall(e));
            },
        };
        match request {
            SyscallRequest::StorageRead { key } => {
                let value = self.storage_read(key);
                Ok(SyscallResponse::new(left, ResponseBody::StorageRead { value }))
            },
            SyscallRequest::StorageWrite { key, value } => {
                self.storage_write(key, value);
                Ok(SyscallResponse::new(left, ResponseBody::StorageWrite))
            },
            SyscallRequest::EmitEvent { keys, data } => {
                self.emit_event(keys, data);
                Ok(SyscallResponse::new(left, ResponseBody::EmitEvent))
            },
            SyscallRequest::GetCallerAddress => {
                self.resources.count_syscall(SyscallKind::GetCallerAddress);
                Ok(SyscallResponse::new(left, ResponseBody::GetCallerAddress { address: self.caller_address }))
            },
            SyscallRequest::CallContract { contract_address, entry_point_selector, calldata } => {
                let entry_point = ExecutionEntryPoint::new(
                    contract_address,
                    calldata,
                    entry_point_selector,
                    self.contract_address,
                    EntryPointType::External,
                    CallType::Call,
                    None,
                );
                assert(entry_point == old(self).requested_call(request));
                match self.call(SyscallKind::CallContract, entry_point) {
                    Ok(retdata) => Ok(SyscallResponse::new(left, ResponseBody::CallContract { retdata })),
                    Err(e) => Err(e),
                }
            },
            SyscallRequest::Deploy { class_hash, contract_address_salt, constructor_calldata } => {
                match self.deploy(class_hash, contract_address_salt, constructor_calldata) {
                    Ok(contract_address) => Ok(
                        SyscallResponse::new(left, ResponseBody::Deploy { contract_address }),
                    ),
                    Err(e) => Err(e),
                }
            },
            SyscallRequest::LibraryCall { class_hash, entry_point_selector, calldata } => {
                let entry_point = ExecutionEntryPoint::new(
                    self.contract_address,
                    calldata,
                    entry_point_selector,
                    self.caller_address,
                    EntryPointType::Library,
                    CallType::Delegate,
                    Some(felt_to_hash(&class_hash)),
                );
                assert(entry_point == old(self).requested_call(request));
                match self.call(SyscallKind::LibraryCall, entry_point) {
                    Ok(retdata) => Ok(SyscallResponse::new(left, ResponseBody::CallContract { retdata })),
                    Err(e) => {
                        assert(old(self).called(
                            &*self,
                            SyscallKind::LibraryCall,
                            old(self).requested_call(request),
                            Err(e),
                        ));
                        Ok(SyscallResponse::new(left, ResponseBody::Failure))
                    },
                }
            },
        }
    }

    /// Reads the request at `syscall_ptr` from the memory of the virtual
    /// machine and serves it.  A request that cannot be decoded fails with
    /// the fault of the decoding and changes nothing.
    pub fn syscall(&mut self, vm: &VirtualMachine, syscall_ptr: &Relocatable) -> (r: Result<
        SyscallResponse,
        ExecutionError,
    >)
        requires
            request_readable(*vm, *syscall_ptr),
        ensures
            final(self).same_context(old(self)),
            match request_at(*vm, *syscall_ptr) {
                Err(e) => r == Err::<SyscallResponse, ExecutionError>(ExecutionError::Syscall(e)) && *final(self) == *old(self),
                Ok((request, gas)) => if gas < gas_cost(request) {
                    r == Err::<SyscallResponse, ExecutionError>(
                        ExecutionError::Syscall(SyscallHandlerError::OutOfGas),
                    ) && *final(self) == *old(self)
                } else {
                    (match r {
                        Ok(response) => response.spec_gas() == gas - gas_cost(request),
                        Err(_) => (request is CallContract || request is Deploy) && old(self).call_dropped(
                            final(self),
                        ),
                    }) && exists|decoded: SyscallRequest| #[trigger]
                        decoded@ == request && old(self).request_served(final(self), decoded, r)
                },
            },
    {
        match read_request(vm, syscall_ptr) {
            Ok((request, gas)) => self.execute_request(request, gas),
            Err(e) => Err(ExecutionError::Syscall(e)),
        }
    }
}

} // verus!
