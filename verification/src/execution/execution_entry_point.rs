//! One entry-point invocation: from the lookup of its code to the record of
//! what it did.
//!
//! An invocation is pending until its code has been found, runs in a scope
//! of its own, and ends either succeeded, with its writes merged into the
//! caller's state, or reverted, with its scope dropped.

use crate::contract_class::{ContractClass, EntryPointType};
use crate::definitions::general_config::StarknetGeneralConfig;
use crate::errors::{ExecutionError, StateError};
use crate::execution::objects::{CallInfo, CallType, ExecutionResourcesManager, OrderedEvent};
use crate::felt::{copy_felts, Address, ClassHash, Felt};
use crate::state::cached_state::{class_lookup, read_class_hash, CachedState};
use crate::state::state_api::StateReader;
use crate::state::state_cache::StateCacheView;
use crate::syscalls::syscall_handler::SyscallHandler;
use vstd::prelude::*;

verus! {

/// What a run of the virtual machine hands back when it halts normally.
#[derive(Debug, PartialEq, Eq)]
pub struct RunOutput {
    pub retdata: Vec<Felt>,
    pub n_steps: u64,
}

/// The machinery outside the library, as the library consumes it.  Nothing
/// is assumed of what its methods do.
pub trait Runner<T>: Sized {
    /// Runs the code of `class` from `entry_point_offset` on and hands each
    /// request of the running contract to `handler`.  It hands back the
    /// handler as the run has left it, and the returned data or a fault.
    fn run<'a>(
        &self,
        class: &ContractClass,
        entry_point_offset: usize,
        calldata: &Vec<Felt>,
        handler: SyscallHandler<'a, T, Self>,
    ) -> (SyscallHandler<'a, T, Self>, Result<RunOutput, ExecutionError>);

    /// The address at which `deployer` deploys the class `class_hash` with
    /// the given salt and constructor arguments: a hash of them, or the
    /// fault that kept it from being derived.
    fn contract_address(
        &self,
        deployer: &Address,
        salt: &Felt,
        class_hash: &ClassHash,
        constructor_calldata: &Vec<Felt>,
    ) -> Result<Address, ExecutionError>;
}

/// `after` and `outcome` are a handler and an outcome that a run of the
/// machine may hand back when it is started with the handler `before`.
pub open spec fn run_reported<'a, T, R: Runner<T>>(
    runner: &R,
    class: ContractClass,
    entry_point_offset: usize,
    calldata: Vec<Felt>,
    before: SyscallHandler<'a, T, R>,
    after: SyscallHandler<'a, T, R>,
    outcome: Result<RunOutput, ExecutionError>,
) -> bool {
    call_ensures(R::run, (runner, &class, entry_point_offset, &calldata, before), (after, outcome))
}

/// The code offset at which `class` starts the entry point of the given
/// kind and selector; a class that declares none yields
/// `EntryPointNotFound`.
pub fn entry_point_of(class: &ContractClass, entry_point_type: EntryPointType, selector: &Felt) -> (r: Result<
    usize,
    ExecutionError,
>)
    ensures
        r == (match class.spec_entry_point_offset(entry_point_type, *selector) {
            Some(offset) => Ok::<usize, ExecutionError>(offset),
            None => Err::<usize, ExecutionError>(ExecutionError::EntryPointNotFound),
        }),
{
    match class.entry_point_offset(entry_point_type, *selector) {
        Some(offset) => Ok(offset),
        None => Err(ExecutionError::EntryPointNotFound),
    }
}

/// The invocation of one entry point.
#[derive(Debug, PartialEq, Eq)]
pub struct ExecutionEntryPoint {
    pub call_type: CallType,
    /// The contract in whose storage the code runs.
    pub contract_address: Address,
    /// The class whose code runs, where it is not the class of the contract.
    pub class_hash: Option<ClassHash>,
    pub entry_point_selector: Felt,
    pub entry_point_type: EntryPointType,
    pub calldata: Vec<Felt>,
    pub caller_address: Address,
}

impl ExecutionEntryPoint {
    /// An invocation with the given fields.
    pub fn new(
        contract_address: Address,
        calldata: Vec<Felt>,
        entry_point_selector: Felt,
        caller_address: Address,
        entry_point_type: EntryPointType,
        call_type: CallType,
        class_hash: Option<ClassHash>,
    ) -> (r: Self)
        ensures
            r == (ExecutionEntryPoint {
                call_type,
                contract_address,
                class_hash,
                entry_point_selector,
                entry_point_type,
                calldata,
                caller_address,
            }),
    {
        ExecutionEntryPoint {
            call_type,
            contract_address,
            class_hash,
            entry_point_selector,
            entry_point_type,
            calldata,
            caller_address,
        }
    }

    /// The record that this invocation leaves when its run ends with `output`.
    pub open spec fn call_info(
        &self,
        class_hash: ClassHash,
        output: RunOutput,
        events: Vec<OrderedEvent>,
        internal_calls: Vec<CallInfo>,
        info: CallInfo,
    ) -> bool {
        &&& info.caller_address == self.caller_address
        &&& info.call_type == self.call_type
        &&& info.contract_address == self.contract_address
        &&& info.class_hash == class_hash
        &&& info.entry_point_selector == self.entry_point_selector
        &&& info.entry_point_type == self.entry_point_type
        &&& info.calldata@ == self.calldata@
        &&& info.retdata == output.retdata
        &&& info.n_steps == output.n_steps
        &&& info.events == events
        &&& info.internal_calls == internal_calls
    }

    /// Where the code of the invocation is found in `scope`, given what the
    /// reader answers: `fetched_hash` where it is asked for the class hash of
    /// the called contract, `fetched_class` where it is asked for the class.
    /// The class hash is the one that the invocation names, else the one
    /// cached in the scope, else the reader's; a contract without one is
    /// `NotDeployed`, a class hash without a class `ClassNotFound`, and a
    /// class without the entry point `EntryPointNotFound`.
    pub open spec fn code_found(
        &self,
        cache: StateCacheView,
        fetched_hash: Option<ClassHash>,
        fetched_class: Option<ContractClass>,
    ) -> Result<(ClassHash, ContractClass, usize), ExecutionError> {
        match self.hash_found(cache, fetched_hash).1 {
            Err(e) => Err(ExecutionError::State(e)),
            Ok(class_hash) => match fetched_class {
                None => Err(ExecutionError::State(StateError::ClassNotFound(class_hash))),
                Some(class) => match class.spec_entry_point_offset(
                    self.entry_point_type,
                    self.entry_point_selector,
                ) {
                    None => Err(ExecutionError::EntryPointNotFound),
                    Some(offset) => Ok((class_hash, class, offset)),
                },
            },
        }
    }

    /// The class hash of the code, and the cache of the scope after it has
    /// been looked up.
    pub open spec fn hash_found(&self, cache: StateCacheView, fetched_hash: Option<ClassHash>) -> (
        StateCacheView,
        Result<ClassHash, StateError>,
    ) {
        match self.class_hash {
            Some(named) => (cache, Ok(named)),
            None => read_class_hash(cache, self.contract_address, fetched_hash),
        }
    }

    /// `fetched_hash` and `fetched_class` are answers that the reader of
    /// `scope` may give where the lookup of the code asks it.
    pub open spec fn reader_may_answer<T: StateReader>(
        &self,
        scope: CachedState<T>,
        fetched_hash: Option<ClassHash>,
        fetched_class: Option<ContractClass>,
    ) -> bool {
        &&& self.class_hash.is_none() && scope.cache@.get_class_hash(self.contract_address).is_none()
            ==> scope.reader_may_answer_class_hash(self.contract_address, fetched_hash)
        &&& match self.hash_found(scope.cache@, fetched_hash).1 {
            Ok(class_hash) => scope.reader_may_answer_class(class_hash, fetched_class),
            Err(_) => true,
        }
    }

    /// The handler `handler` is the one that a run of the invocation starts
    /// with: it holds the scope in which the code was looked up and the
    /// ledger as it was, and has recorded nothing.
    pub open spec fn started<'a, T, R: Runner<T>>(
        &self,
        handler: SyscallHandler<'a, T, R>,
        runner: &'a R,
        config: &'a StarknetGeneralConfig,
        reader: T,
        cache: StateCacheView,
        resources: ExecutionResourcesManager,
    ) -> bool {
        &&& handler.runner == runner
        &&& handler.config == config
        &&& handler.state.state_reader == reader
        &&& handler.state.cache@ == cache
        &&& handler.resources == resources
        &&& handler.caller_address == self.caller_address
        &&& handler.contract_address == self.contract_address
        &&& handler.events@.len() == 0
        &&& handler.internal_calls@.len() == 0
    }

    /// How a run ends that handed back `handler` and `outcome`: a run that
    /// halted normally has its writes merged and its steps counted, and
    /// leaves its record; a fault is the result, and the state stays as it
    /// was.  The requests that the handler has counted stay counted.
    pub open spec fn concluded<'a, T, R: Runner<T>>(
        &self,
        before: CachedState<T>,
        after: CachedState<T>,
        handler: SyscallHandler<'a, T, R>,
        class_hash: ClassHash,
        outcome: Result<RunOutput, ExecutionError>,
        resources_after: ExecutionResourcesManager,
        r: Result<CallInfo, ExecutionError>,
    ) -> bool {
        match outcome {
            Ok(output) => after.state_reader == before.state_reader && after.cache@
                == before.cache@.update_writes_from_other(handler.state.cache@) && resources_after
                == handler.resources.stepped(output.n_steps) && (match r {
                Ok(info) => self.call_info(class_hash, output, handler.events, handler.internal_calls, info),
                Err(_) => false,
            }),
            Err(e) => r == Err::<CallInfo, ExecutionError>(e) && after == before && resources_after
                == handler.resources,
        }
    }

    /// What holds of every run of the invocation against a state: `after`,
    /// `resources_after` and `r` are the state, the ledger and the result
    /// that it leaves of `before` and `resources_before`.
    ///
    /// The code is looked up in a copy of the state, from answers that the
    /// copy's reader may give.  Where it is not found, the fault of the
    /// lookup is the result and nothing changes.  Where it is found, the
    /// machine runs it with a handler on that copy, and what the run hands
    /// back decides: see [`ExecutionEntryPoint::concluded`].  A failure
    /// leaves the state as it was, a success changes only its writes.
    pub open spec fn ran<'a, T: StateReader + Clone, R: Runner<T>>(
        &self,
        runner: &'a R,
        config: &'a StarknetGeneralConfig,
        before: CachedState<T>,
        after: CachedState<T>,
        resources_before: ExecutionResourcesManager,
        resources_after: ExecutionResourcesManager,
        r: Result<CallInfo, ExecutionError>,
    ) -> bool {
        &&& after.state_reader == before.state_reader
        &&& after.cache@.class_hash_initial_values == before.cache@.class_hash_initial_values
        &&& after.cache@.nonce_initial_values == before.cache@.nonce_initial_values
        &&& after.cache@.storage_initial_values == before.cache@.storage_initial_values
        &&& match r {
            Ok(info) => info.caller_address == self.caller_address && info.call_type == self.call_type
                && info.contract_address == self.contract_address && info.entry_point_selector
                == self.entry_point_selector && info.entry_point_type == self.entry_point_type
                && info.calldata@ == self.calldata@ && exists|child: StateCacheView| #[trigger]
                before.cache@.update_writes_from_other(child) == after.cache@,
            Err(_) => after == before,
        }
        &&& exists|scope: CachedState<T>, fetched_hash: Option<ClassHash>, fetched_class: Option<ContractClass>|
            scope.cache@ == before.cache@ && cloned::<T>(before.state_reader, scope.state_reader)
                && #[trigger] self.reader_may_answer(scope, fetched_hash, fetched_class) && (
            match self.code_found(before.cache@, fetched_hash, fetched_class) {
                Err(e) => r == Err::<CallInfo, ExecutionError>(e) && resources_after == resources_before,
                Ok((class_hash, class, offset)) => exists|
                    started: SyscallHandler<'a, T, R>,
                    ended: SyscallHandler<'a, T, R>,
                    outcome: Result<RunOutput, ExecutionError>,
                |
                    self.started(
                        started,
                        runner,
                        config,
                        scope.state_reader,
                        self.hash_found(before.cache@, fetched_hash).0,
                        resources_before,
                    ) && #[trigger] run_reported(runner, class, offset, self.calldata, started, ended, outcome)
                        && self.concluded(before, after, ended, class_hash, outcome, resources_after, r),
            })
    }

    /// Ends a running invocation.  Where the run halted normally, the writes
    /// of its scope are merged into `state`, its steps are counted, and the
    /// record of the call is handed out; where it ended in a fault, the fault
    /// is handed on and `state` stays as it was.
    pub fn conclude<T: StateReader>(
        &self,
        state: &mut CachedState<T>,
        scope: &CachedState<T>,
        resources: &mut ExecutionResourcesManager,
        class_hash: ClassHash,
        outcome: Result<RunOutput, ExecutionError>,
        events: Vec<OrderedEvent>,
        internal_calls: Vec<CallInfo>,
    ) -> (r: Result<CallInfo, ExecutionError>)
        ensures
            final(state).state_reader == old(state).state_reader,
            match outcome {
                Ok(output) => r.is_ok() && self.call_info(
                    class_hash,
                    output,
                    events,
                    internal_calls,
                    r.unwrap(),
                ) && final(state).cache@ == old(state).cache@.update_writes_from_other(scope.cache@)
                    && *final(resources) == old(resources).stepped(output.n_steps),
                Err(e) => r == Err::<CallInfo, ExecutionError>(e) && *final(state) == *old(state)
                    && *final(resources) == *old(resources),
            },
    {
        match outcome {
            Ok(output) => {
                resources.count_steps(output.n_steps);
                state.merge_child(scope);
                Ok(
                    CallInfo {
                        caller_address: self.caller_address,
                        call_type: self.call_type,
                        contract_address: self.contract_address,
                        class_hash,
                        entry_point_selector: self.entry_point_selector,
                        entry_point_type: self.entry_point_type,
                        calldata: copy_felts(&self.calldata),
                        retdata: output.retdata,
                        n_steps: output.n_steps,
                        events,
                        internal_calls,
                    },
                )
            },
            Err(e) => Err(e),
        }
    }

    /// Finds the code of a pending invocation in `scope`: the class of the
    /// called contract, or the class named by the invocation, and in it the
    /// offset of the entry point.
    pub fn resolve<T: StateReader>(&self, scope: &mut CachedState<T>) -> (r: Result<
        (ClassHash, ContractClass, usize),
        ExecutionError,
    >)
        ensures
            final(scope).state_reader == old(scope).state_reader,
            final(scope).cache@.class_hash_writes == old(scope).cache@.class_hash_writes,
            final(scope).cache@.nonce_writes == old(scope).cache@.nonce_writes,
            final(scope).cache@.storage_writes == old(scope).cache@.storage_writes,
            r matches Ok((class_hash, class, offset)) ==> class.spec_entry_point_offset(
                self.entry_point_type,
                self.entry_point_selector,
            ) == Some(offset) && (match self.class_hash {
                Some(named) => class_hash == named,
                None => final(scope).cache@.get_class_hash(self.contract_address) == Some(class_hash),
            }),
            self.class_hash.is_none() && old(scope).cache@.get_class_hash(self.contract_address).is_some()
                ==> final(scope).cache@ == old(scope).cache@,
            self.class_hash.is_some() ==> final(scope).cache@ == old(scope).cache@,
            r matches Err(e) ==> final(scope).cache@ == old(scope).cache@ || final(scope).cache@.get_class_hash(
                self.contract_address,
            ).is_some(),
            r matches Err(e) ==> match e {
                ExecutionError::State(StateError::NotDeployed(address)) => address == self.contract_address
                    && self.class_hash.is_none() && old(scope).cache@.get_class_hash(
                    self.contract_address,
                ).is_none(),
                ExecutionError::State(StateError::ClassNotFound(missing)) => match self.class_hash {
                    Some(named) => missing == named,
                    None => final(scope).cache@.get_class_hash(self.contract_address) == Some(missing),
                },
                ExecutionError::EntryPointNotFound => true,
                _ => false,
            },
            exists|fetched_hash: Option<ClassHash>, fetched_class: Option<ContractClass>| #[trigger]
                self.reader_may_answer(*old(scope), fetched_hash, fetched_class) && r == self.code_found(
                    old(scope).cache@,
                    fetched_hash,
                    fetched_class,
                ) && final(scope).cache@ == self.hash_found(old(scope).cache@, fetched_hash).0,
    {
        let ghost before = *scope;
        let ghost mut fetched_hash: Option<ClassHash> = None;
        let found_hash = match self.class_hash {
            Some(named) => Ok(named),
            None => {
                let found = scope.get_class_hash_at(&self.contract_address);
                proof {
                    if before.cache@.get_class_hash(self.contract_address).is_none() {
                        fetched_hash = choose|fetched: Option<ClassHash>| #[trigger]
                            before.reader_may_answer_class_hash(self.contract_address, fetched) && (
                            scope.cache@,
                            found,
                        ) == read_class_hash(before.cache@, self.contract_address, fetched);
                    }
                }
                found
            },
        };
        assert((scope.cache@, found_hash) == self.hash_found(before.cache@, fetched_hash));
        let class_hash = match found_hash {
            Ok(class_hash) => class_hash,
            Err(e) => {
                assert(self.reader_may_answer(before, fetched_hash, None));
                return Err(ExecutionError::State(e));
            },
        };
        let looked_up = scope.get_contract_class(&class_hash);
        let ghost fetched_class = choose|fetched: Option<ContractClass>| #[trigger]
            scope.reader_may_answer_class(class_hash, fetched) && looked_up == class_lookup(class_hash, fetched);
        assert(before.reader_may_answer_class(class_hash, fetched_class));
        assert(self.reader_may_answer(before, fetched_hash, fetched_class));
        let class = match looked_up {
            Ok(class) => class,
            Err(e) => {
                return Err(ExecutionError::State(e));
            },
        };
        let offset = match entry_point_of(&class, self.entry_point_type, &self.entry_point_selector) {
            Ok(offset) => offset,
            Err(e) => {
                return Err(e);
            },
        };
        Ok((class_hash, class, offset))
    }

    /// Runs the invocation against `state`.  The code runs in a scope of its
    /// own, a copy of `state`.  If it runs to its end, the writes of the
    /// scope are merged into `state`; what `state` first observed stays.  If
    /// it does not, whatever the reason, `state` is left exactly as it was.
    /// The requests served and the steps taken are counted in `resources`
    /// either way.
    pub fn execute<T: StateReader + Clone, R: Runner<T>>(
        &self,
        state: &mut CachedState<T>,
        config: &StarknetGeneralConfig,
        runner: &R,
        resources: &mut ExecutionResourcesManager,
    ) -> (r: Result<CallInfo, ExecutionError>)
        ensures
            self.ran(runner, config, *old(state), *final(state), *old(resources), *final(resources), r),
    {
        let mut scope = state.clone();
        let ghost copy = scope;
        let resolved = self.resolve(&mut scope);
        let ghost answers = choose|fetched_hash: Option<ClassHash>, fetched_class: Option<ContractClass>| #[trigger]
            self.reader_may_answer(copy, fetched_hash, fetched_class) && resolved == self.code_found(
                copy.cache@,
                fetched_hash,
                fetched_class,
            ) && scope.cache@ == self.hash_found(copy.cache@, fetched_hash).0;
        assert(self.reader_may_answer(copy, answers.0, answers.1));
        let (class_hash, class, offset) = match resolved {
            Ok(found) => found,
            Err(e) => {
                return Err(e);
            },
        };
        let handler = SyscallHandler::new(
            runner,
            config,
            scope,
            *resources,
            self.caller_address,
            self.contract_address,
        );
        let ghost started = handler;
        let (handler, outcome) = runner.run(&class, offset, &self.calldata, handler);
        let ghost ended = handler;
        let SyscallHandler { state: scope, resources: used, events, internal_calls, .. } = handler;
        *resources = used;
        let r = self.conclude(state, &scope, resources, class_hash, outcome, events, internal_calls);
        proof {
            if r is Ok {
                assert(old(state).cache@.update_writes_from_other(scope.cache@) == state.cache@);
            }
            assert(self.started(
                started,
                runner,
                config,
                copy.state_reader,
                self.hash_found(copy.cache@, answers.0).0,
                *old(resources),
            ));
            assert(run_reported(runner, class, offset, self.calldata, started, ended, outcome));
            assert(self.concluded(*old(state), *state, ended, class_hash, outcome, *resources, r));
        }
        r
    }
}

} // verus!
