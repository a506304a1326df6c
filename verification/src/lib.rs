//! The execution of transactions against a cached state: isolated scopes
//! for speculative and nested execution, explicit merges of their writes,
//! and the bridge between the requests of a virtual machine and the state.

use crate::definitions::general_config::StarknetGeneralConfig;
use crate::errors::TransactionError;
use crate::execution::execution_entry_point::Runner;
use crate::execution::objects::{ExecutionResourcesManager, TransactionExecutionInfo};
use crate::felt::Felt;
use crate::state::cached_state::CachedState;
use crate::state::state_api::StateReader;
use crate::state::state_cache::StateCacheView;
use crate::transaction::Transaction;
use vstd::prelude::*;

pub mod contract_class;
pub mod definitions;
pub mod errors;
pub mod execution;
pub mod felt;
pub mod state;
pub mod syscalls;
pub mod transaction;
pub mod utils;
pub mod vec_map;

verus! {

/// Options accepted by a simulated run.
pub struct SimulationFlags;

/// The entry to the library: transactions applied to, or tried against, a state.
pub struct Starknet;

/// The data that the call of a transaction returned, given the result of
/// its execution; a transaction that ran no call has none to hand out.
pub open spec fn returned_data(result: Result<TransactionExecutionInfo, TransactionError>) -> Result<
    Vec<Felt>,
    TransactionError,
> {
    match result {
        Ok(info) => match info.call_info {
            Some(call) => Ok(call.retdata),
            None => Err(TransactionError::EmptyCallInfo),
        },
        Err(e) => Err(e),
    }
}

/// The fee that a transaction consumed, given the result of its execution.
pub open spec fn consumed_fee(result: Result<TransactionExecutionInfo, TransactionError>) -> Result<
    u64,
    TransactionError,
> {
    match result {
        Ok(info) => Ok(info.actual_fee),
        Err(e) => Err(e),
    }
}

/// The record of a transaction with its fee, given the result of its
/// execution.
pub open spec fn record_with_fee(result: Result<TransactionExecutionInfo, TransactionError>) -> Result<
    (TransactionExecutionInfo, u64),
    TransactionError,
> {
    match result {
        Ok(info) => Ok((info, info.actual_fee)),
        Err(e) => Err(e),
    }
}

/// `result` is the result of an execution of `tx` against a copy of
/// `state`: a scope with the same cache, whose own changes are dropped.
pub open spec fn tried<'a, T: StateReader + Clone, R: Runner<T>>(
    tx: Transaction,
    runner: &'a R,
    config: &'a StarknetGeneralConfig,
    state: CachedState<T>,
    result: Result<TransactionExecutionInfo, TransactionError>,
) -> bool {
    exists|copy: CachedState<T>, after: CachedState<T>|
        copy.cache@ == state.cache@ && cloned::<T>(state.state_reader, copy.state_reader)
            && #[trigger] tx.executed(runner, config, copy, after, result)
}

/// The data that the call of a transaction returned; a transaction that
/// ran no call has none to hand out.
pub fn retdata_of(result: Result<TransactionExecutionInfo, TransactionError>) -> (r: Result<
    Vec<Felt>,
    TransactionError,
>)
    ensures
        r == returned_data(result),
{
    match result {
        Ok(info) => match info.call_info {
            Some(call) => Ok(call.retdata),
            None => Err(TransactionError::EmptyCallInfo),
        },
        Err(e) => Err(e),
    }
}

/// The fee that an executed transaction consumed.
pub fn fee_of(result: Result<TransactionExecutionInfo, TransactionError>) -> (r: Result<
    u64,
    TransactionError,
>)
    ensures
        r == consumed_fee(result),
{
    match result {
        Ok(info) => Ok(info.actual_fee),
        Err(e) => Err(e),
    }
}

/// The record of an executed transaction together with its fee.
pub fn simulation_of(result: Result<TransactionExecutionInfo, TransactionError>) -> (r: Result<
    (TransactionExecutionInfo, u64),
    TransactionError,
>)
    ensures
        r == record_with_fee(result),
{
    match result {
        Ok(info) => {
            let fee = info.actual_fee;
            Ok((info, fee))
        },
        Err(e) => Err(e),
    }
}

impl Starknet {
    /// Runs `tx` against a copy of `state` and hands out what its call
    /// returned.  `state` itself is left as it was.
    pub fn call_contract<T, R>(
        state: &mut CachedState<T>,
        tx: Transaction,
        config: &StarknetGeneralConfig,
        runner: &R,
    ) -> (r: Result<Vec<Felt>, TransactionError>) where T: StateReader + Clone, R: Runner<T>
        ensures
            *final(state) == *old(state),
            exists|result: Result<TransactionExecutionInfo, TransactionError>| #[trigger]
                tried(tx, runner, config, *old(state), result) && r == returned_data(result),
            tx.refusal(old(state).cache@) matches Some(e) ==> r == Err::<Vec<Felt>, TransactionError>(e),
    {
        let mut state_copy = state.clone();
        let ghost copy = state_copy;
        let result = tx.execute(&mut state_copy, config, runner);
        proof {
            assert(tx.executed(runner, config, copy, state_copy, result));
            assert(tried(tx, runner, config, *old(state), result));
        }
        retdata_of(result)
    }

    /// Runs `tx` against a copy of `state` and hands out the fee it
    /// consumed: the fee that executing it would report.
    pub fn estimate_fee<T, R>(
        state: &CachedState<T>,
        tx: Transaction,
        config: &StarknetGeneralConfig,
        runner: &R,
    ) -> (r: Result<u64, TransactionError>) where T: StateReader + Clone, R: Runner<T>
        ensures
            exists|result: Result<TransactionExecutionInfo, TransactionError>| #[trigger]
                tried(tx, runner, config, *state, result) && r == consumed_fee(result),
            tx.refusal(state.cache@) matches Some(e) ==> r == Err::<u64, TransactionError>(e),
    {
        let mut state_copy = state.clone();
        let ghost copy = state_copy;
        let result = tx.execute(&mut state_copy, config, runner);
        proof {
            assert(tx.executed(runner, config, copy, state_copy, result));
            assert(tried(tx, runner, config, *state, result));
        }
        fee_of(result)
    }

    /// Executes `tx` against `state`.  A transaction that fails leaves
    /// `state` exactly as it was; one that succeeds changes only its writes.
    pub fn execute_tx<T, R>(
        &self,
        state: &mut CachedState<T>,
        tx: Transaction,
        config: &StarknetGeneralConfig,
        runner: &R,
    ) -> (r: Result<TransactionExecutionInfo, TransactionError>) where T: StateReader + Clone, R: Runner<T>
        ensures
            tx.executed(runner, config, *old(state), *final(state), r),
    {
        tx.execute(state, config, runner)
    }

    /// Runs `tx` against a copy of `state` and hands out its record
    /// together with the fee it consumed.
    pub fn simulate_tx<T, R>(
        state: &CachedState<T>,
        tx: Transaction,
        config: &StarknetGeneralConfig,
        runner: &R,
        _options: Option<SimulationFlags>,
    ) -> (r: Result<(TransactionExecutionInfo, u64), TransactionError>) where
        T: StateReader + Clone,
        R: Runner<T>,

        ensures
            exists|result: Result<TransactionExecutionInfo, TransactionError>| #[trigger]
                tried(tx, runner, config, *state, result) && r == record_with_fee(result),
            tx.refusal(state.cache@) matches Some(e) ==> r == Err::<
                (TransactionExecutionInfo, u64),
                TransactionError,
            >(e),
            r matches Ok((info, fee)) ==> fee == info.actual_fee && fee == info.actual_resources.fee(
                config.gas_price,
            ),
    {
        let mut state_copy = state.clone();
        let ghost copy = state_copy;
        let result = tx.execute(&mut state_copy, config, runner);
        proof {
            assert(tx.executed(runner, config, copy, state_copy, result));
            assert(tried(tx, runner, config, *state, result));
            if result is Ok {
                assert(tx.applied(*config, state_copy.cache@, result.unwrap()));
            }
        }
        simulation_of(result)
    }
}

} // verus!
