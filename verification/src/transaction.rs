//! Transactions: what each kind checks, which entry points it runs, and
//! what it leaves in the state.
//!
//! A transaction runs in a scope of its own, a copy of the state it is
//! applied to.  Only when every phase has succeeded are the writes of that
//! scope merged into the state; a transaction that fails leaves no trace.

use crate::contract_class::EntryPointType;
use crate::definitions::constants::{
    VALIDATE_DECLARE_ENTRY_POINT_SELECTOR, VALIDATE_DEPLOY_ENTRY_POINT_SELECTOR,
    VALIDATE_ENTRY_POINT_SELECTOR,
};
use crate::definitions::general_config::StarknetGeneralConfig;
use crate::errors::{ExecutionError, TransactionError};
use crate::contract_class::ContractClass;
use crate::execution::deployment::{
    begin_deployment, constructor_ran, deployed, deployment_begun, reader_may_answer_deployment,
    run_constructor,
};
use crate::execution::execution_entry_point::{ExecutionEntryPoint, Runner};
use crate::execution::objects::{CallInfo, CallType, ExecutionResourcesManager, TransactionExecutionInfo};
use crate::felt::{be_value, copy_felts, Address, ClassHash, Felt};
use crate::errors::StateError;
use crate::state::cached_state::{read_nonce, CachedState};
use crate::state::state_api::StateReader;
use crate::state::state_cache::StateCacheView;
use vstd::prelude::*;

verus! {

/// The invocation of a function of an account contract.
#[derive(Debug, PartialEq, Eq)]
pub struct InvokeFunction {
    pub contract_address: Address,
    pub entry_point_selector: Felt,
    pub entry_point_type: EntryPointType,
    pub calldata: Vec<Felt>,
    pub max_fee: u64,
    pub nonce: Felt,
}

/// The declaration of a class by an account.
#[derive(Debug, PartialEq, Eq)]
pub struct Declare {
    pub class_hash: ClassHash,
    pub sender_address: Address,
    pub max_fee: u64,
    pub nonce: Felt,
}

/// The deployment of a contract at an address.
#[derive(Debug, PartialEq, Eq)]
pub struct Deploy {
    pub contract_address: Address,
    pub class_hash: ClassHash,
    pub constructor_calldata: Vec<Felt>,
}

/// The deployment of an account contract, paid for by the account itself.
#[derive(Debug, PartialEq, Eq)]
pub struct DeployAccount {
    pub contract_address: Address,
    pub class_hash: ClassHash,
    pub constructor_calldata: Vec<Felt>,
    pub max_fee: u64,
    pub nonce: Felt,
}

/// A transaction of any kind.
#[derive(Debug, PartialEq, Eq)]
pub enum Transaction {
    InvokeFunction(InvokeFunction),
    Declare(Declare),
    Deploy(Deploy),
    DeployAccount(DeployAccount),
}

/// Holds the nonce of a transaction against the nonce that the account
/// expects: they must be the same.
pub fn check_nonce(expected: Felt, found: Felt) -> (r: Result<(), TransactionError>)
    ensures
        r == (if expected == found {
            Ok::<(), TransactionError>(())
        } else {
            Err::<(), TransactionError>(TransactionError::NonceMismatch { expected, found })
        }),
{
    if expected.hi == found.hi && expected.lo == found.lo {
        Ok(())
    } else {
        Err(TransactionError::NonceMismatch { expected, found })
    }
}

/// Holds the fee that a transaction consumed against the most its sender
/// offers.
pub fn check_fee(max_fee: u64, actual_fee: u64) -> (r: Result<(), TransactionError>)
    ensures
        r == (if actual_fee <= max_fee {
            Ok::<(), TransactionError>(())
        } else {
            Err::<(), TransactionError>(TransactionError::FeeTooLow { max_fee, actual_fee })
        }),
{
    if actual_fee <= max_fee {
        Ok(())
    } else {
        Err(TransactionError::FeeTooLow { max_fee, actual_fee })
    }
}

/// The fault of the start of a deployment as the fault of the transaction
/// that deploys.
pub open spec fn deployment_fault(e: ExecutionError) -> TransactionError {
    match e {
        ExecutionError::ContractAddressUnavailable(address) => TransactionError::ContractAddressUnavailable(
            address,
        ),
        ExecutionError::UnexpectedConstructorCalldata => TransactionError::UnexpectedConstructorCalldata,
        _ => TransactionError::Execution(e),
    }
}

/// The fault of the start of a deployment as the fault of the transaction
/// that deploys.
pub fn deployment_error(e: ExecutionError) -> (r: TransactionError)
    ensures
        r == deployment_fault(e),
{
    match e {
        ExecutionError::ContractAddressUnavailable(address) => TransactionError::ContractAddressUnavailable(
            address,
        ),
        ExecutionError::UnexpectedConstructorCalldata => TransactionError::UnexpectedConstructorCalldata,
        _ => TransactionError::Execution(e),
    }
}

/// The reader and what was first observed are the same in both states.
pub open spec fn same_reader_and_initial<T>(before: CachedState<T>, after: CachedState<T>) -> bool {
    &&& after.state_reader == before.state_reader
    &&& after.cache@.class_hash_initial_values == before.cache@.class_hash_initial_values
    &&& after.cache@.nonce_initial_values == before.cache@.nonce_initial_values
    &&& after.cache@.storage_initial_values == before.cache@.storage_initial_values
}

/// The record of a validation: the run, from outside, of the external entry
/// point under `selector` of the account, with the given arguments.
pub open spec fn validation_record(info: CallInfo, account: Address, selector: u128, calldata: Seq<Felt>) -> bool {
    &&& info.contract_address == account
    &&& info.caller_address == Address(Felt { hi: 0, lo: 0 })
    &&& info.entry_point_selector == (Felt { hi: 0, lo: selector })
    &&& info.entry_point_type == EntryPointType::External
    &&& info.call_type == CallType::Call
    &&& info.calldata@ == calldata
}

/// The record of a constructor run by a deployment from outside, if the
/// class declares a constructor; a class without one takes no arguments.
pub open spec fn constructor_record(
    call_info: Option<CallInfo>,
    contract_address: Address,
    class_hash: ClassHash,
    constructor_calldata: Seq<Felt>,
) -> bool {
    match call_info {
        Some(info) => info.contract_address == contract_address && info.caller_address == Address(
            Felt { hi: 0, lo: 0 },
        ) && info.entry_point_type == EntryPointType::Constructor && info.class_hash == class_hash
            && info.calldata@ == constructor_calldata,
        None => constructor_calldata.len() == 0,
    }
}

/// The refusal that the nonce of a transaction meets where the account's
/// nonce is cached and differs.
pub open spec fn nonce_refusal(cache: StateCacheView, account: Address, nonce: Felt) -> Option<TransactionError> {
    match cache.get_nonce(account) {
        Some(expected) => if expected != nonce {
            Some(TransactionError::NonceMismatch { expected, found: nonce })
        } else {
            None
        },
        None => None,
    }
}

/// `fetched` is an answer that the reader of `scope` may give where the
/// nonce of `account` is not cached and the reader is asked for it.
pub open spec fn nonce_answer<T: StateReader>(scope: CachedState<T>, account: Address, fetched: Felt) -> bool {
    scope.cache@.get_nonce(account).is_none() ==> scope.reader_may_answer_nonce(account, fetched)
}

/// The nonce of a transaction was held against the nonce of `account` as
/// `scope` has it, cached or from its reader: where they differ, the result
/// is the mismatch.
pub open spec fn nonce_checked<T: StateReader>(
    scope: CachedState<T>,
    account: Address,
    nonce: Felt,
    r: Result<TransactionExecutionInfo, TransactionError>,
) -> bool {
    exists|fetched: Felt| #[trigger]
        nonce_answer(scope, account, fetched) && (read_nonce(scope.cache@, account, fetched).1 != nonce
            ==> r == Err::<TransactionExecutionInfo, TransactionError>(
            TransactionError::NonceMismatch {
                expected: read_nonce(scope.cache@, account, fetched).1,
                found: nonce,
            },
        ))
}

/// When a nonce is refused: the mismatch names the nonce of the
/// transaction and the nonce of `account` as `scope` has it, cached or as
/// its reader may answer, and the two differ.
pub open spec fn nonce_mismatch_owed<T: StateReader>(
    scope: CachedState<T>,
    account: Address,
    nonce: Felt,
    expected: Felt,
    found: Felt,
) -> bool {
    &&& found == nonce
    &&& expected != nonce
    &&& exists|fetched: Felt| #[trigger]
        nonce_answer(scope, account, fetched) && expected == read_nonce(scope.cache@, account, fetched).1
}

/// The nonce of a transaction agreed with the nonce of `account` as `scope`
/// has it, cached or as its reader may answer; `held` is the scope after
/// that reading, with an answer of the reader noted as first observed.
pub open spec fn nonce_agreed<T: StateReader>(
    scope: CachedState<T>,
    held: CachedState<T>,
    account: Address,
    nonce: Felt,
) -> bool {
    &&& held.state_reader == scope.state_reader
    &&& exists|fetched: Felt| #[trigger]
        nonce_answer(scope, account, fetched) && (held.cache@, nonce) == read_nonce(
            scope.cache@,
            account,
            fetched,
        )
}

/// The fee was computed from the ledger, is covered by `max_fee`, and the
/// nonce of `account` has advanced.
pub open spec fn settled(
    config: StarknetGeneralConfig,
    cache: StateCacheView,
    info: TransactionExecutionInfo,
    account: Address,
    nonce: Felt,
    max_fee: u64,
) -> bool {
    &&& info.actual_fee == info.actual_resources.fee(config.gas_price)
    &&& info.actual_fee <= max_fee
    &&& cache.nonce_writes.contains_key(account)
    &&& cache.nonce_writes[account] == nonce.spec_successor()
}

/// The invocation by which the account at `account` validates: the
/// external entry point under `selector`, called from outside.
pub open spec fn validation_entry_point(account: Address, selector: u128, calldata: Vec<Felt>) -> ExecutionEntryPoint {
    ExecutionEntryPoint {
        call_type: CallType::Call,
        contract_address: account,
        class_hash: None,
        entry_point_selector: Felt { hi: 0, lo: selector },
        entry_point_type: EntryPointType::External,
        calldata,
        caller_address: Address(Felt { hi: 0, lo: 0 }),
    }
}

/// The result of a validation, given the result of the account's run: a
/// fault of the run is a failed validation.
pub open spec fn validation_result(result: Result<CallInfo, ExecutionError>) -> Result<
    CallInfo,
    TransactionError,
> {
    match result {
        Ok(info) => Ok(info),
        Err(e) => Err(TransactionError::ValidationFailed(e)),
    }
}

/// Holds the nonce of a transaction against the nonce of `account` as
/// `scope` has it: a cached nonce, else the reader's, which is then noted as
/// first observed.
fn hold_nonce<T: StateReader>(scope: &mut CachedState<T>, account: Address, nonce: Felt) -> (r: Result<
    (),
    TransactionError,
>)
    ensures
        final(scope).state_reader == old(scope).state_reader,
        old(scope).cache@.get_nonce(account).is_some() ==> *final(scope) == *old(scope),
        final(scope).cache@ == old(scope).cache@ || final(scope).cache@ == old(scope).cache@.record_nonce_initial(account, nonce) || r.is_err(),
        final(scope).cache@.class_hash_initial_values == old(scope).cache@.class_hash_initial_values,
        final(scope).cache@.class_hash_writes == old(scope).cache@.class_hash_writes,
        nonce_refusal(old(scope).cache@, account, nonce) matches Some(e) ==> r == Err::<(), TransactionError>(e),
        exists|fetched: Felt| #[trigger]
            nonce_answer(*old(scope), account, fetched) && r == (if read_nonce(
                old(scope).cache@,
                account,
                fetched,
            ).1 == nonce {
                Ok::<(), TransactionError>(())
            } else {
                Err::<(), TransactionError>(
                    TransactionError::NonceMismatch {
                        expected: read_nonce(old(scope).cache@, account, fetched).1,
                        found: nonce,
                    },
                )
            }),
        r matches Err(e) ==> (match e {
            TransactionError::NonceMismatch { expected, found } => nonce_mismatch_owed(
                *old(scope),
                account,
                nonce,
                expected,
                found,
            ),
            _ => false,
        }),
        r.is_ok() ==> nonce_agreed(*old(scope), *final(scope), account, nonce),
{
    let expected = scope.get_nonce_at(&account);
    assert(nonce_answer(*old(scope), account, expected));
    check_nonce(expected, nonce)
}

/// The invocation that an invoke transaction asks for: its entry point on
/// its account, called from outside.
pub open spec fn invocation_call(entry: ExecutionEntryPoint, tx: InvokeFunction) -> bool {
    &&& entry.call_type == CallType::Call
    &&& entry.contract_address == tx.contract_address
    &&& entry.class_hash.is_none()
    &&& entry.entry_point_selector == tx.entry_point_selector
    &&& entry.entry_point_type == tx.entry_point_type
    &&& entry.calldata@ == tx.calldata@
    &&& entry.caller_address == Address(Felt { hi: 0, lo: 0 })
}

/// What holds of every run of the invocation of an invoke transaction: it
/// is a run of the invocation that the transaction asks for.
pub open spec fn invoked<'a, T: StateReader + Clone, R: Runner<T>>(
    runner: &'a R,
    config: &'a StarknetGeneralConfig,
    before: CachedState<T>,
    after: CachedState<T>,
    resources_before: ExecutionResourcesManager,
    resources_after: ExecutionResourcesManager,
    tx: InvokeFunction,
    r: Result<CallInfo, ExecutionError>,
) -> bool {
    exists|entry: ExecutionEntryPoint|
        invocation_call(entry, tx) && #[trigger] entry.ran(
            runner,
            config,
            before,
            after,
            resources_before,
            resources_after,
            r,
        )
}

/// The invocation of an invoke transaction failed with the fault `inner`:
/// a run of it, against some scope over `reader`, reported it.
pub open spec fn invocation_failed<'a, T: StateReader + Clone, R: Runner<T>>(
    runner: &'a R,
    config: &'a StarknetGeneralConfig,
    reader: T,
    tx: InvokeFunction,
    inner: ExecutionError,
) -> bool {
    exists|
        entry: ExecutionEntryPoint,
        before: CachedState<T>,
        after: CachedState<T>,
        resources_before: ExecutionResourcesManager,
        resources_after: ExecutionResourcesManager,
    |
        invocation_call(entry, tx) && before.state_reader == reader && #[trigger] entry.ran(
            runner,
            config,
            before,
            after,
            resources_before,
            resources_after,
            Err(inner),
        )
}

/// What holds of every validation: it is a run of the account's
/// invocation, and a fault of the run is a failed validation.
pub open spec fn validated<'a, T: StateReader + Clone, R: Runner<T>>(
    runner: &'a R,
    config: &'a StarknetGeneralConfig,
    before: CachedState<T>,
    after: CachedState<T>,
    resources_before: ExecutionResourcesManager,
    resources_after: ExecutionResourcesManager,
    account: Address,
    selector: u128,
    calldata: Seq<Felt>,
    r: Result<CallInfo, TransactionError>,
) -> bool {
    exists|entry: ExecutionEntryPoint, result: Result<CallInfo, ExecutionError>|
        entry.calldata@ == calldata && entry == validation_entry_point(account, selector, entry.calldata)
            && #[trigger] entry.ran(runner, config, before, after, resources_before, resources_after, result)
            && r == validation_result(result)
}

/// The account at `account` failed to validate with the fault `inner`: a
/// run of its validation, against some scope over `reader`, reported it.
pub open spec fn validation_failed<'a, T: StateReader + Clone, R: Runner<T>>(
    runner: &'a R,
    config: &'a StarknetGeneralConfig,
    reader: T,
    account: Address,
    selector: u128,
    calldata: Seq<Felt>,
    inner: ExecutionError,
) -> bool {
    exists|
        before: CachedState<T>,
        after: CachedState<T>,
        resources_before: ExecutionResourcesManager,
        resources_after: ExecutionResourcesManager,
    |
        before.state_reader == reader && #[trigger] validated(
            runner,
            config,
            before,
            after,
            resources_before,
            resources_after,
            account,
            selector,
            calldata,
            Err(TransactionError::ValidationFailed(inner)),
        )
}

/// Runs the entry point under `selector` of the account at `account` to
/// validate a transaction.
fn validate<T: StateReader + Clone, R: Runner<T>>(
    scope: &mut CachedState<T>,
    config: &StarknetGeneralConfig,
    runner: &R,
    resources: &mut ExecutionResourcesManager,
    account: Address,
    selector: u128,
    calldata: Vec<Felt>,
) -> (r: Result<CallInfo, TransactionError>)
    ensures
        final(scope).state_reader == old(scope).state_reader,
        r.is_err() ==> *final(scope) == *old(scope),
        r matches Err(e) ==> e is ValidationFailed,
        r matches Ok(info) ==> validation_record(info, account, selector, calldata@),
        same_reader_and_initial(*old(scope), *final(scope)),
        r.is_ok() ==> exists|child: StateCacheView| #[trigger]
            old(scope).cache@.update_writes_from_other(child) == final(scope).cache@,
        validated(
            runner,
            config,
            *old(scope),
            *final(scope),
            *old(resources),
            *final(resources),
            account,
            selector,
            calldata@,
            r,
        ),
        r matches Err(e) ==> (match e {
            TransactionError::ValidationFailed(inner) => validation_failed(
                runner,
                config,
                old(scope).state_reader,
                account,
                selector,
                calldata@,
                inner,
            ),
            _ => false,
        }),
{
    let entry_point = ExecutionEntryPoint::new(
        account,
        calldata,
        Felt::from_u128(selector),
        Address(Felt::zero()),
        EntryPointType::External,
        CallType::Call,
        None,
    );
    let result = entry_point.execute(scope, config, runner, resources);
    proof {
        assert(entry_point == validation_entry_point(account, selector, entry_point.calldata));
        assert(entry_point.ran(runner, config, *old(scope), *scope, *old(resources), *resources, result));
    }
    let r = match result {
        Ok(info) => Ok(info),
        Err(e) => Err(TransactionError::ValidationFailed(e)),
    };
    proof {
        assert(validated(
            runner,
            config,
            *old(scope),
            *scope,
            *old(resources),
            *resources,
            account,
            selector,
            entry_point.calldata@,
            r,
        ));
    }
    r
}

/// The constructor of a deployment from outside failed with the fault
/// `inner`: a run of it, against some scope over `reader`, reported it.
pub open spec fn constructor_failed<'a, T: StateReader + Clone, R: Runner<T>>(
    runner: &'a R,
    config: &'a StarknetGeneralConfig,
    reader: T,
    contract_address: Address,
    class_hash: ClassHash,
    constructor_calldata: Seq<Felt>,
    inner: ExecutionError,
) -> bool {
    exists|
        before: CachedState<T>,
        after: CachedState<T>,
        resources_before: ExecutionResourcesManager,
        resources_after: ExecutionResourcesManager,
    |
        before.state_reader == reader && #[trigger] constructor_ran(
            runner,
            config,
            before,
            after,
            resources_before,
            resources_after,
            contract_address,
            class_hash,
            constructor_calldata,
            Address(Felt { hi: 0, lo: 0 }),
            Err(inner),
        )
}

/// The start of a deployment in `scope` failed with the fault `inner`, for
/// answers that the reader of `scope` may give.
pub open spec fn begun_failed<T: StateReader>(
    scope: CachedState<T>,
    contract_address: Address,
    class_hash: ClassHash,
    constructor_calldata: Seq<Felt>,
    inner: ExecutionError,
) -> bool {
    exists|fetched_hash: Option<ClassHash>, fetched_class: Option<ContractClass>| #[trigger]
        reader_may_answer_deployment(scope, contract_address, class_hash, fetched_hash, fetched_class)
            && deployment_begun(
            scope.cache@,
            contract_address,
            class_hash,
            constructor_calldata,
            fetched_hash,
            fetched_class,
        ).1 == Err::<bool, ExecutionError>(inner)
}

/// When a deployment from outside fails with `e`: either its start failed,
/// as [`deployment_begun`] says for answers that the reader may give, and
/// `e` is that fault as the transaction's; or a run of the constructor
/// reported the fault, and `e` is a failed execution.
pub open spec fn deployment_refused<'a, T: StateReader + Clone, R: Runner<T>>(
    runner: &'a R,
    config: &'a StarknetGeneralConfig,
    scope: CachedState<T>,
    contract_address: Address,
    class_hash: ClassHash,
    constructor_calldata: Seq<Felt>,
    e: TransactionError,
) -> bool {
    ||| exists|inner: ExecutionError| #[trigger]
        begun_failed(scope, contract_address, class_hash, constructor_calldata, inner) && e
            == deployment_fault(inner)
    ||| match e {
        TransactionError::Execution(inner) => constructor_failed(
            runner,
            config,
            scope.state_reader,
            contract_address,
            class_hash,
            constructor_calldata,
            inner,
        ),
        _ => false,
    }
}

/// Deploys a class from outside: the start of the deployment, then the
/// constructor, if the class declares one.  A fault of the start is the
/// transaction's own; a fault of the constructor's run is handed on as a
/// failed execution.
fn deploy_from_outside<T: StateReader + Clone, R: Runner<T>>(
    scope: &mut CachedState<T>,
    config: &StarknetGeneralConfig,
    runner: &R,
    resources: &mut ExecutionResourcesManager,
    contract_address: Address,
    class_hash: ClassHash,
    constructor_calldata: &Vec<Felt>,
) -> (r: Result<Option<CallInfo>, TransactionError>)
    ensures
        final(scope).state_reader == old(scope).state_reader,
        old(scope).cache@.get_class_hash(contract_address).is_some() ==> r == Err::<
            Option<CallInfo>,
            TransactionError,
        >(TransactionError::ContractAddressUnavailable(contract_address)),
        r matches Err(e) ==> deployment_refused(
            runner,
            config,
            *old(scope),
            contract_address,
            class_hash,
            constructor_calldata@,
            e,
        ),
        r matches Ok(call_info) ==> constructor_record(
            call_info,
            contract_address,
            class_hash,
            constructor_calldata@,
        ) && final(scope).cache@.class_hash_writes.contains_key(contract_address) && final(scope).cache@.class_hash_writes[contract_address] == class_hash,
        r matches Ok(call_info) ==> deployed(
            runner,
            config,
            *old(scope),
            *final(scope),
            *old(resources),
            *final(resources),
            contract_address,
            class_hash,
            constructor_calldata@,
            Address(Felt { hi: 0, lo: 0 }),
            Ok(call_info),
        ),
{
    let ghost before = *scope;
    let begun = begin_deployment(scope, contract_address, class_hash, constructor_calldata);
    let ghost answers = choose|fetched_hash: Option<ClassHash>, fetched_class: Option<ContractClass>| #[trigger]
        reader_may_answer_deployment(
            before,
            contract_address,
            class_hash,
            fetched_hash,
            fetched_class,
        ) && (scope.cache@, begun) == deployment_begun(
            before.cache@,
            contract_address,
            class_hash,
            constructor_calldata@,
            fetched_hash,
            fetched_class,
        );
    let run = match begun {
        Ok(run) => run,
        Err(e) => {
            proof {
                assert(reader_may_answer_deployment(
                    before,
                    contract_address,
                    class_hash,
                    answers.0,
                    answers.1,
                ));
                assert(begun_failed(before, contract_address, class_hash, constructor_calldata@, e));
            }
            return Err(deployment_error(e));
        },
    };
    proof {
        assert(reader_may_answer_deployment(before, contract_address, class_hash, answers.0, answers.1));
    }
    if !run {
        return Ok(None);
    }
    let ghost started = *scope;
    let ghost resources_before = *resources;
    let constructed = run_constructor(
        scope,
        config,
        runner,
        resources,
        contract_address,
        class_hash,
        constructor_calldata,
        Address(Felt::zero()),
    );
    proof {
        assert(constructor_ran(
            runner,
            config,
            started,
            *scope,
            resources_before,
            *resources,
            contract_address,
            class_hash,
            constructor_calldata@,
            Address(Felt { hi: 0, lo: 0 }),
            constructed,
        ));
    }
    match constructed {
        Ok(info) => Ok(Some(info)),
        Err(e) => {
            proof {
                assert(constructor_failed(
                    runner,
                    config,
                    before.state_reader,
                    contract_address,
                    class_hash,
                    constructor_calldata@,
                    e,
                ));
            }
            Err(TransactionError::Execution(e))
        },
    }
}

/// Computes the fee for the consumed resources, holds it against `max_fee`
/// and, if it is covered, advances the nonce of `account`.
fn settle<T: StateReader>(
    scope: &mut CachedState<T>,
    config: &StarknetGeneralConfig,
    resources: &ExecutionResourcesManager,
    account: Address,
    nonce: Felt,
    max_fee: u64,
) -> (r: Result<u64, TransactionError>)
    ensures
        final(scope).state_reader == old(scope).state_reader,
        r == (if resources.fee(config.gas_price) <= max_fee {
            Ok::<u64, TransactionError>(resources.fee(config.gas_price))
        } else {
            Err::<u64, TransactionError>(
                TransactionError::FeeTooLow { max_fee, actual_fee: resources.fee(config.gas_price) },
            )
        }),
        r.is_ok() ==> final(scope).cache@ == old(scope).cache@.write_nonce(account, nonce.spec_successor()),
        r.is_err() ==> *final(scope) == *old(scope),
{
    let actual_fee = resources.calculate_fee(config.gas_price);
    match check_fee(max_fee, actual_fee) {
        Ok(()) => {
            scope.set_nonce_at(account, nonce.successor());
            Ok(actual_fee)
        },
        Err(e) => Err(e),
    }
}

impl InvokeFunction {
    /// What can be read off a successful invocation without its runs: the
    /// fields of its records and the writes in the cache of the scope it ran in.
    pub open spec fn applied(
        &self,
        config: StarknetGeneralConfig,
        cache: StateCacheView,
        info: TransactionExecutionInfo,
    ) -> bool {
        &&& settled(config, cache, info, self.contract_address, self.nonce, self.max_fee)
        &&& match info.validate_info {
            Some(validation) => validation_record(
                validation,
                self.contract_address,
                VALIDATE_ENTRY_POINT_SELECTOR,
                self.calldata@,
            ),
            None => false,
        }
        &&& match info.call_info {
            Some(call) => call.contract_address == self.contract_address && call.caller_address == Address(
                Felt { hi: 0, lo: 0 },
            ) && call.entry_point_selector == self.entry_point_selector && call.entry_point_type
                == self.entry_point_type && call.call_type == CallType::Call && call.calldata@
                == self.calldata@,
            None => false,
        }
    }

    /// The phases of the invocation before its settlement went through: the
    /// nonce agreed, the account validated with a ledger in which nothing
    /// was consumed, and the function ran after it.  They left the scope
    /// `ended`, the ledger `used` and the two records.
    pub open spec fn phases_ran<'a, T: StateReader + Clone, R: Runner<T>>(
        &self,
        runner: &'a R,
        config: &'a StarknetGeneralConfig,
        scope: CachedState<T>,
        ended: CachedState<T>,
        used: ExecutionResourcesManager,
        validate_info: CallInfo,
        call_info: CallInfo,
    ) -> bool {
        exists|held: CachedState<T>, validated_scope: CachedState<T>, middle: ExecutionResourcesManager|
            nonce_agreed(scope, held, self.contract_address, self.nonce) && #[trigger] validated(
                runner,
                config,
                held,
                validated_scope,
                ExecutionResourcesManager::empty(),
                middle,
                self.contract_address,
                VALIDATE_ENTRY_POINT_SELECTOR,
                self.calldata@,
                Ok(validate_info),
            ) && invoked(runner, config, validated_scope, ended, middle, used, *self, Ok(call_info))
    }

    /// What holds of every invocation that succeeds against `scope`: its
    /// records and its ledger are those of its phases, the fee is the fee
    /// of that ledger and is covered, and `ended` is the cache that the
    /// phases left with the nonce advanced.
    pub open spec fn succeeded<'a, T: StateReader + Clone, R: Runner<T>>(
        &self,
        runner: &'a R,
        config: &'a StarknetGeneralConfig,
        scope: CachedState<T>,
        ended: StateCacheView,
        info: TransactionExecutionInfo,
    ) -> bool {
        match (info.validate_info, info.call_info) {
            (Some(validate_info), Some(call_info)) => info.actual_fee == info.actual_resources.fee(
                config.gas_price,
            ) && info.actual_fee <= self.max_fee && exists|before_settle: CachedState<T>| #[trigger]
                self.phases_ran(
                    runner,
                    config,
                    scope,
                    before_settle,
                    info.actual_resources,
                    validate_info,
                    call_info,
                ) && ended == before_settle.cache@.write_nonce(
                    self.contract_address,
                    self.nonce.spec_successor(),
                ),
            _ => false,
        }
    }

    /// The fee `actual_fee` is the fee of the ledger that the phases of the
    /// invocation left.
    pub open spec fn charged<'a, T: StateReader + Clone, R: Runner<T>>(
        &self,
        runner: &'a R,
        config: &'a StarknetGeneralConfig,
        scope: CachedState<T>,
        actual_fee: u64,
    ) -> bool {
        exists|
            before_settle: CachedState<T>,
            used: ExecutionResourcesManager,
            validate_info: CallInfo,
            call_info: CallInfo,
        | #[trigger]
            self.phases_ran(runner, config, scope, before_settle, used, validate_info, call_info)
                && actual_fee == used.fee(config.gas_price)
    }

    /// When the invocation fails with `e`: each fault only where it is
    /// owed.  A mismatch is the account's nonce against the transaction's; a
    /// failed validation or execution is a fault that the run reported; a
    /// fee that is too low is the fee of the phases' ledger and exceeds the
    /// offer.
    pub open spec fn refused<'a, T: StateReader + Clone, R: Runner<T>>(
        &self,
        runner: &'a R,
        config: &'a StarknetGeneralConfig,
        scope: CachedState<T>,
        e: TransactionError,
    ) -> bool {
        match e {
            TransactionError::NonceMismatch { expected, found } => nonce_mismatch_owed(
                scope,
                self.contract_address,
                self.nonce,
                expected,
                found,
            ),
            TransactionError::ValidationFailed(inner) => validation_failed(
                runner,
                config,
                scope.state_reader,
                self.contract_address,
                VALIDATE_ENTRY_POINT_SELECTOR,
                self.calldata@,
                inner,
            ),
            TransactionError::Execution(inner) => invocation_failed(
                runner,
                config,
                scope.state_reader,
                *self,
                inner,
            ),
            TransactionError::FeeTooLow { max_fee, actual_fee } => max_fee == self.max_fee && actual_fee
                > max_fee && self.charged(runner, config, scope, actual_fee),
            _ => false,
        }
    }

    /// Applies the invocation to `scope`: the nonce is checked, the account
    /// validates, the function runs, the fee is held against the offer, and
    /// the nonce advances.
    pub fn apply<T: StateReader + Clone, R: Runner<T>>(
        &self,
        scope: &mut CachedState<T>,
        config: &StarknetGeneralConfig,
        runner: &R,
    ) -> (r: Result<TransactionExecutionInfo, TransactionError>)
        ensures
            final(scope).state_reader == old(scope).state_reader,
            nonce_refusal(old(scope).cache@, self.contract_address, self.nonce) matches Some(e) ==> r
                == Err::<TransactionExecutionInfo, TransactionError>(e),
            nonce_checked(*old(scope), self.contract_address, self.nonce, r),
            r matches Ok(info) ==> self.applied(*config, final(scope).cache@, info),
            r matches Ok(info) ==> self.succeeded(runner, config, *old(scope), final(scope).cache@, info),
            r matches Err(e) ==> self.refused(runner, config, *old(scope), e),
    {
        match hold_nonce(scope, self.contract_address, self.nonce) {
            Ok(()) => {},
            Err(e) => {
                return Err(e);
            },
        }
        let ghost held = *scope;
        let mut resources = ExecutionResourcesManager::new();
        let validate_info = match validate(
            scope,
            config,
            runner,
            &mut resources,
            self.contract_address,
            VALIDATE_ENTRY_POINT_SELECTOR,
            copy_felts(&self.calldata),
        ) {
            Ok(info) => info,
            Err(e) => {
                return Err(e);
            },
        };
        let ghost validated_scope = *scope;
        let ghost validated_resources = resources;
        let entry_point = ExecutionEntryPoint::new(
            self.contract_address,
            copy_felts(&self.calldata),
            self.entry_point_selector,
            Address(Felt::zero()),
            self.entry_point_type,
            CallType::Call,
            None,
        );
        let ran = entry_point.execute(scope, config, runner, &mut resources);
        proof {
            assert(invocation_call(entry_point, *self));
            assert(entry_point.ran(
                runner,
                config,
                validated_scope,
                *scope,
                validated_resources,
                resources,
                ran,
            ));
            assert(invoked(runner, config, validated_scope, *scope, validated_resources, resources, *self, ran));
        }
        let call_info = match ran {
            Ok(info) => info,
            Err(e) => {
                proof {
                    assert(invocation_failed(runner, config, old(scope).state_reader, *self, e));
                }
                return Err(TransactionError::Execution(e));
            },
        };
        let ghost before_settle = *scope;
        proof {
            assert(validated(
                runner,
                config,
                held,
                validated_scope,
                ExecutionResourcesManager::empty(),
                validated_resources,
                self.contract_address,
                VALIDATE_ENTRY_POINT_SELECTOR,
                self.calldata@,
                Ok(validate_info),
            ));
            assert(self.phases_ran(
                runner,
                config,
                *old(scope),
                before_settle,
                resources,
                validate_info,
                call_info,
            ));
        }
        let actual_fee = match settle(scope, config, &resources, self.contract_address, self.nonce, self.max_fee) {
            Ok(fee) => fee,
            Err(e) => {
                proof {
                    assert(self.charged(runner, config, *old(scope), resources.fee(config.gas_price)));
                }
                return Err(e);
            },
        };
        Ok(
            TransactionExecutionInfo {
                validate_info: Some(validate_info),
                call_info: Some(call_info),
                actual_fee,
                actual_resources: resources,
            },
        )
    }
}

impl Declare {
    /// What can be read off a successful declaration without its run: the
    /// fields of its record and the writes in the cache of the scope it ran
    /// in.  The account validates with the class hash as its one argument.
    pub open spec fn applied(
        &self,
        config: StarknetGeneralConfig,
        cache: StateCacheView,
        info: TransactionExecutionInfo,
    ) -> bool {
        &&& settled(config, cache, info, self.sender_address, self.nonce, self.max_fee)
        &&& info.call_info.is_none()
        &&& match info.validate_info {
            Some(validation) => validation.contract_address == self.sender_address
                && validation.entry_point_selector == (Felt {
                hi: 0,
                lo: VALIDATE_DECLARE_ENTRY_POINT_SELECTOR,
            }) && validation.calldata@.len() == 1 && validation.calldata@[0].value() == be_value(
                self.class_hash@,
            ),
            None => false,
        }
    }

    /// The one argument of the validation of a declaration: the class hash
    /// as a number.
    pub open spec fn validation_calldata(&self) -> Seq<Felt> {
        seq![crate::utils::felt_of_value(be_value(self.class_hash@))]
    }

    /// The phases of the declaration before its settlement went through:
    /// the nonce agreed, the reader had the class, and the account validated
    /// with a ledger in which nothing was consumed.  They left the scope
    /// `ended`, the ledger `used` and the record.
    pub open spec fn phases_ran<'a, T: StateReader + Clone, R: Runner<T>>(
        &self,
        runner: &'a R,
        config: &'a StarknetGeneralConfig,
        scope: CachedState<T>,
        ended: CachedState<T>,
        used: ExecutionResourcesManager,
        validate_info: CallInfo,
    ) -> bool {
        exists|held: CachedState<T>, class: ContractClass|
            nonce_agreed(scope, held, self.sender_address, self.nonce) && #[trigger] validated(
                runner,
                config,
                held,
                ended,
                ExecutionResourcesManager::empty(),
                used,
                self.sender_address,
                VALIDATE_DECLARE_ENTRY_POINT_SELECTOR,
                self.validation_calldata(),
                Ok(validate_info),
            ) && #[trigger] held.reader_may_answer_class(self.class_hash, Some(class))
    }

    /// What holds of every declaration that succeeds against `scope`: its
    /// record and its ledger are those of its phases, the fee is the fee of
    /// that ledger and is covered, and `ended` is the cache that the phases
    /// left with the nonce advanced.
    pub open spec fn succeeded<'a, T: StateReader + Clone, R: Runner<T>>(
        &self,
        runner: &'a R,
        config: &'a StarknetGeneralConfig,
        scope: CachedState<T>,
        ended: StateCacheView,
        info: TransactionExecutionInfo,
    ) -> bool {
        match (info.validate_info, info.call_info) {
            (Some(validate_info), None) => info.actual_fee == info.actual_resources.fee(config.gas_price)
                && info.actual_fee <= self.max_fee && exists|before_settle: CachedState<T>| #[trigger]
                self.phases_ran(runner, config, scope, before_settle, info.actual_resources, validate_info)
                    && ended == before_settle.cache@.write_nonce(
                    self.sender_address,
                    self.nonce.spec_successor(),
                ),
            _ => false,
        }
    }

    /// The fee `actual_fee` is the fee of the ledger that the phases of the
    /// declaration left.
    pub open spec fn charged<'a, T: StateReader + Clone, R: Runner<T>>(
        &self,
        runner: &'a R,
        config: &'a StarknetGeneralConfig,
        scope: CachedState<T>,
        actual_fee: u64,
    ) -> bool {
        exists|before_settle: CachedState<T>, used: ExecutionResourcesManager, validate_info: CallInfo| #[trigger]
            self.phases_ran(runner, config, scope, before_settle, used, validate_info) && actual_fee
                == used.fee(config.gas_price)
    }

    /// When the declaration fails with `e`: each fault only where it is
    /// owed.  A failed execution is a class that the reader may not have.
    pub open spec fn refused<'a, T: StateReader + Clone, R: Runner<T>>(
        &self,
        runner: &'a R,
        config: &'a StarknetGeneralConfig,
        scope: CachedState<T>,
        e: TransactionError,
    ) -> bool {
        match e {
            TransactionError::NonceMismatch { expected, found } => nonce_mismatch_owed(
                scope,
                self.sender_address,
                self.nonce,
                expected,
                found,
            ),
            TransactionError::Execution(inner) => inner == ExecutionError::State(
                StateError::ClassNotFound(self.class_hash),
            ) && scope.reader_may_answer_class(self.class_hash, None),
            TransactionError::ValidationFailed(inner) => validation_failed(
                runner,
                config,
                scope.state_reader,
                self.sender_address,
                VALIDATE_DECLARE_ENTRY_POINT_SELECTOR,
                self.validation_calldata(),
                inner,
            ),
            TransactionError::FeeTooLow { max_fee, actual_fee } => max_fee == self.max_fee && actual_fee
                > max_fee && self.charged(runner, config, scope, actual_fee),
            _ => false,
        }
    }

    /// Applies the declaration to `scope`: the nonce is checked, the class
    /// must be known, the account validates, the fee is held against the
    /// offer, and the nonce advances.
    pub fn apply<T: StateReader + Clone, R: Runner<T>>(
        &self,
        scope: &mut CachedState<T>,
        config: &StarknetGeneralConfig,
        runner: &R,
    ) -> (r: Result<TransactionExecutionInfo, TransactionError>)
        ensures
            final(scope).state_reader == old(scope).state_reader,
            nonce_refusal(old(scope).cache@, self.sender_address, self.nonce) matches Some(e) ==> r
                == Err::<TransactionExecutionInfo, TransactionError>(e),
            nonce_checked(*old(scope), self.sender_address, self.nonce, r),
            r matches Ok(info) ==> self.applied(*config, final(scope).cache@, info),
            r matches Ok(info) ==> self.succeeded(runner, config, *old(scope), final(scope).cache@, info),
            r matches Err(e) ==> self.refused(runner, config, *old(scope), e),
    {
        match hold_nonce(scope, self.sender_address, self.nonce) {
            Ok(()) => {},
            Err(e) => {
                return Err(e);
            },
        }
        let ghost held = *scope;
        let looked_up = scope.get_contract_class(&self.class_hash);
        let ghost fetched = choose|fetched: Option<ContractClass>| #[trigger]
            scope.reader_may_answer_class(self.class_hash, fetched) && looked_up
                == crate::state::cached_state::class_lookup(self.class_hash, fetched);
        match looked_up {
            Ok(_) => {},
            Err(e) => {
                proof {
                    assert(fetched.is_none());
                    assert(old(scope).reader_may_answer_class(self.class_hash, None));
                }
                return Err(TransactionError::Execution(ExecutionError::State(e)));
            },
        }
        let mut resources = ExecutionResourcesManager::new();
        let mut calldata: Vec<Felt> = Vec::new();
        let argument = Felt::from_hash(&self.class_hash);
        assert(argument == crate::utils::felt_of_value(argument.value()));
        calldata.push(argument);
        assert(calldata@ =~= self.validation_calldata());
        let validate_info = match validate(
            scope,
            config,
            runner,
            &mut resources,
            self.sender_address,
            VALIDATE_DECLARE_ENTRY_POINT_SELECTOR,
            calldata,
        ) {
            Ok(info) => info,
            Err(e) => {
                return Err(e);
            },
        };
        let ghost before_settle = *scope;
        proof {
            assert(held.reader_may_answer_class(self.class_hash, Some(fetched.unwrap())));
            assert(validated(
                runner,
                config,
                held,
                before_settle,
                ExecutionResourcesManager::empty(),
                resources,
                self.sender_address,
                VALIDATE_DECLARE_ENTRY_POINT_SELECTOR,
                self.validation_calldata(),
                Ok(validate_info),
            ));
            assert(self.phases_ran(runner, config, *old(scope), before_settle, resources, validate_info));
        }
        let actual_fee = match settle(scope, config, &resources, self.sender_address, self.nonce, self.max_fee) {
            Ok(fee) => fee,
            Err(e) => {
                proof {
                    assert(self.charged(runner, config, *old(scope), resources.fee(config.gas_price)));
                }
                return Err(e);
            },
        };
        Ok(
            TransactionExecutionInfo {
                validate_info: Some(validate_info),
                call_info: None,
                actual_fee,
                actual_resources: resources,
            },
        )
    }
}

impl Deploy {
    /// What holds of every deployment that succeeds against `scope`: it is
    /// a deployment from outside with a ledger in which nothing was
    /// consumed; its record and its ledger are those of that deployment, the
    /// fee is the fee of that ledger, and `ended` is the cache that it left.
    pub open spec fn succeeded<'a, T: StateReader + Clone, R: Runner<T>>(
        &self,
        runner: &'a R,
        config: &'a StarknetGeneralConfig,
        scope: CachedState<T>,
        ended: StateCacheView,
        info: TransactionExecutionInfo,
    ) -> bool {
        &&& info.validate_info.is_none()
        &&& info.actual_fee == info.actual_resources.fee(config.gas_price)
        &&& exists|ended_scope: CachedState<T>| #[trigger]
            deployed(
                runner,
                config,
                scope,
                ended_scope,
                ExecutionResourcesManager::empty(),
                info.actual_resources,
                self.contract_address,
                self.class_hash,
                self.constructor_calldata@,
                Address(Felt { hi: 0, lo: 0 }),
                Ok(info.call_info),
            ) && ended == ended_scope.cache@
    }

    /// When the deployment fails with `e`: each fault only where it is owed,
    /// as [`deployment_refused`] says.
    pub open spec fn refused<'a, T: StateReader + Clone, R: Runner<T>>(
        &self,
        runner: &'a R,
        config: &'a StarknetGeneralConfig,
        scope: CachedState<T>,
        e: TransactionError,
    ) -> bool {
        deployment_refused(
            runner,
            config,
            scope,
            self.contract_address,
            self.class_hash,
            self.constructor_calldata@,
            e,
        )
    }

    /// What can be read off a successful deployment without its run: the
    /// fields of its record and the writes in the cache of the scope it ran in.
    pub open spec fn applied(
        &self,
        config: StarknetGeneralConfig,
        cache: StateCacheView,
        info: TransactionExecutionInfo,
    ) -> bool {
        &&& info.actual_fee == info.actual_resources.fee(config.gas_price)
        &&& info.validate_info.is_none()
        &&& cache.class_hash_writes.contains_key(self.contract_address)
        &&& cache.class_hash_writes[self.contract_address] == self.class_hash
        &&& constructor_record(
            info.call_info,
            self.contract_address,
            self.class_hash,
            self.constructor_calldata@,
        )
    }

    /// Applies the deployment to `scope`.  No fee is held against an offer:
    /// the fee of the consumed resources is only reported.
    pub fn apply<T: StateReader + Clone, R: Runner<T>>(
        &self,
        scope: &mut CachedState<T>,
        config: &StarknetGeneralConfig,
        runner: &R,
    ) -> (r: Result<TransactionExecutionInfo, TransactionError>)
        ensures
            final(scope).state_reader == old(scope).state_reader,
            old(scope).cache@.get_class_hash(self.contract_address).is_some() ==> r == Err::<
                TransactionExecutionInfo,
                TransactionError,
            >(TransactionError::ContractAddressUnavailable(self.contract_address)),
            r matches Ok(info) ==> self.applied(*config, final(scope).cache@, info),
            r matches Ok(info) ==> self.succeeded(runner, config, *old(scope), final(scope).cache@, info),
            r matches Err(e) ==> self.refused(runner, config, *old(scope), e),
    {
        let mut resources = ExecutionResourcesManager::new();
        let call_info = match deploy_from_outside(
            scope,
            config,
            runner,
            &mut resources,
            self.contract_address,
            self.class_hash,
            &self.constructor_calldata,
        ) {
            Ok(info) => info,
            Err(e) => {
                return Err(e);
            },
        };
        let actual_fee = resources.calculate_fee(config.gas_price);
        let info = TransactionExecutionInfo { validate_info: None, call_info, actual_fee, actual_resources: resources };
        proof {
            assert(deployed(
                runner,
                config,
                *old(scope),
                *scope,
                ExecutionResourcesManager::empty(),
                info.actual_resources,
                self.contract_address,
                self.class_hash,
                self.constructor_calldata@,
                Address(Felt { hi: 0, lo: 0 }),
                Ok(info.call_info),
            ));
        }
        Ok(info)
    }
}

impl DeployAccount {
    /// The refusal that is certain from what the scope has cached: a nonce
    /// that differs, or, where the nonce agrees, an address that is taken.
    pub open spec fn refusal(&self, cache: StateCacheView) -> Option<TransactionError> {
        match cache.get_nonce(self.contract_address) {
            Some(expected) => if expected != self.nonce {
                Some(TransactionError::NonceMismatch { expected, found: self.nonce })
            } else if cache.get_class_hash(self.contract_address).is_some() {
                Some(TransactionError::ContractAddressUnavailable(self.contract_address))
            } else {
                None
            },
            None => None,
        }
    }

    /// The phases of the deployment of an account before its settlement
    /// went through: the nonce agreed, the contract was deployed from
    /// outside with a ledger in which nothing was consumed, and the new
    /// account validated after it.  They left the scope `ended`, the ledger
    /// `used` and the records.
    pub open spec fn phases_ran<'a, T: StateReader + Clone, R: Runner<T>>(
        &self,
        runner: &'a R,
        config: &'a StarknetGeneralConfig,
        scope: CachedState<T>,
        ended: CachedState<T>,
        used: ExecutionResourcesManager,
        validate_info: CallInfo,
        call_info: Option<CallInfo>,
    ) -> bool {
        exists|held: CachedState<T>, deployed_scope: CachedState<T>, middle: ExecutionResourcesManager|
            nonce_agreed(scope, held, self.contract_address, self.nonce) && #[trigger] deployed(
                runner,
                config,
                held,
                deployed_scope,
                ExecutionResourcesManager::empty(),
                middle,
                self.contract_address,
                self.class_hash,
                self.constructor_calldata@,
                Address(Felt { hi: 0, lo: 0 }),
                Ok(call_info),
            ) && validated(
                runner,
                config,
                deployed_scope,
                ended,
                middle,
                used,
                self.contract_address,
                VALIDATE_DEPLOY_ENTRY_POINT_SELECTOR,
                self.constructor_calldata@,
                Ok(validate_info),
            )
    }

    /// What holds of every deployment of an account that succeeds against
    /// `scope`: its records and its ledger are those of its phases, the fee
    /// is the fee of that ledger and is covered, and `ended` is the cache
    /// that the phases left with the nonce advanced.
    pub open spec fn succeeded<'a, T: StateReader + Clone, R: Runner<T>>(
        &self,
        runner: &'a R,
        config: &'a StarknetGeneralConfig,
        scope: CachedState<T>,
        ended: StateCacheView,
        info: TransactionExecutionInfo,
    ) -> bool {
        match info.validate_info {
            Some(validate_info) => info.actual_fee == info.actual_resources.fee(config.gas_price)
                && info.actual_fee <= self.max_fee && exists|before_settle: CachedState<T>| #[trigger]
                self.phases_ran(
                    runner,
                    config,
                    scope,
                    before_settle,
                    info.actual_resources,
                    validate_info,
                    info.call_info,
                ) && ended == before_settle.cache@.write_nonce(
                    self.contract_address,
                    self.nonce.spec_successor(),
                ),
            None => false,
        }
    }

    /// The fee `actual_fee` is the fee of the ledger that the phases of the
    /// deployment left.
    pub open spec fn charged<'a, T: StateReader + Clone, R: Runner<T>>(
        &self,
        runner: &'a R,
        config: &'a StarknetGeneralConfig,
        scope: CachedState<T>,
        actual_fee: u64,
    ) -> bool {
        exists|
            before_settle: CachedState<T>,
            used: ExecutionResourcesManager,
            validate_info: CallInfo,
            call_info: Option<CallInfo>,
        | #[trigger]
            self.phases_ran(runner, config, scope, before_settle, used, validate_info, call_info)
                && actual_fee == used.fee(config.gas_price)
    }

    /// When the deployment of an account fails with `e`: each fault only
    /// where it is owed.
    pub open spec fn refused<'a, T: StateReader + Clone, R: Runner<T>>(
        &self,
        runner: &'a R,
        config: &'a StarknetGeneralConfig,
        scope: CachedState<T>,
        e: TransactionError,
    ) -> bool {
        match e {
            TransactionError::NonceMismatch { expected, found } => nonce_mismatch_owed(
                scope,
                self.contract_address,
                self.nonce,
                expected,
                found,
            ),
            TransactionError::ValidationFailed(inner) => validation_failed(
                runner,
                config,
                scope.state_reader,
                self.contract_address,
                VALIDATE_DEPLOY_ENTRY_POINT_SELECTOR,
                self.constructor_calldata@,
                inner,
            ),
            TransactionError::FeeTooLow { max_fee, actual_fee } => max_fee == self.max_fee && actual_fee
                > max_fee && self.charged(runner, config, scope, actual_fee),
            _ => deployment_refused(
                runner,
                config,
                scope,
                self.contract_address,
                self.class_hash,
                self.constructor_calldata@,
                e,
            ),
        }
    }

    /// What can be read off a successful deployment of an account without
    /// its runs: the fields of its records and the writes in the cache of
    /// the scope it ran in.
    pub open spec fn applied(
        &self,
        config: StarknetGeneralConfig,
        cache: StateCacheView,
        info: TransactionExecutionInfo,
    ) -> bool {
        &&& settled(config, cache, info, self.contract_address, self.nonce, self.max_fee)
        &&& constructor_record(
            info.call_info,
            self.contract_address,
            self.class_hash,
            self.constructor_calldata@,
        )
        &&& match info.validate_info {
            Some(validation) => validation_record(
                validation,
                self.contract_address,
                VALIDATE_DEPLOY_ENTRY_POINT_SELECTOR,
                self.constructor_calldata@,
            ),
            None => false,
        }
    }

    /// Applies the deployment of an account to `scope`: the nonce is
    /// checked, the contract is deployed, the new account validates, the fee
    /// is held against the offer, and the nonce advances.
    pub fn apply<T: StateReader + Clone, R: Runner<T>>(
        &self,
        scope: &mut CachedState<T>,
        config: &StarknetGeneralConfig,
        runner: &R,
    ) -> (r: Result<TransactionExecutionInfo, TransactionError>)
        ensures
            final(scope).state_reader == old(scope).state_reader,
            self.refusal(old(scope).cache@) matches Some(e) ==> r == Err::<
                TransactionExecutionInfo,
                TransactionError,
            >(e),
            nonce_checked(*old(scope), self.contract_address, self.nonce, r),
            r matches Ok(info) ==> self.applied(*config, final(scope).cache@, info),
            r matches Ok(info) ==> self.succeeded(runner, config, *old(scope), final(scope).cache@, info),
            r matches Err(e) ==> self.refused(runner, config, *old(scope), e),
    {
        match hold_nonce(scope, self.contract_address, self.nonce) {
            Ok(()) => {},
            Err(e) => {
                return Err(e);
            },
        }
        let ghost held = *scope;
        let mut resources = ExecutionResourcesManager::new();
        let call_info = match deploy_from_outside(
            scope,
            config,
            runner,
            &mut resources,
            self.contract_address,
            self.class_hash,
            &self.constructor_calldata,
        ) {
            Ok(info) => info,
            Err(e) => {
                proof {
                    assert(deployment_refused(
                        runner,
                        config,
                        held,
                        self.contract_address,
                        self.class_hash,
                        self.constructor_calldata@,
                        e,
                    ));
                    if exists|inner: ExecutionError| #[trigger]
                        begun_failed(
                            held,
                            self.contract_address,
                            self.class_hash,
                            self.constructor_calldata@,
                            inner,
                        ) && e == deployment_fault(inner) {
                        let inner = choose|inner: ExecutionError| #[trigger]
                            begun_failed(
                                held,
                                self.contract_address,
                                self.class_hash,
                                self.constructor_calldata@,
                                inner,
                            ) && e == deployment_fault(inner);
                        let answers = choose|fetched_hash: Option<ClassHash>, fetched_class: Option<ContractClass>| #[trigger]
                            reader_may_answer_deployment(
                                held,
                                self.contract_address,
                                self.class_hash,
                                fetched_hash,
                                fetched_class,
                            ) && deployment_begun(
                                held.cache@,
                                self.contract_address,
                                self.class_hash,
                                self.constructor_calldata@,
                                fetched_hash,
                                fetched_class,
                            ).1 == Err::<bool, ExecutionError>(inner);
                        assert(reader_may_answer_deployment(
                            *old(scope),
                            self.contract_address,
                            self.class_hash,
                            answers.0,
                            answers.1,
                        ));
                        assert(begun_failed(
                            *old(scope),
                            self.contract_address,
                            self.class_hash,
                            self.constructor_calldata@,
                            inner,
                        ));
                    }
                }
                return Err(e);
            },
        };
        let ghost deployed_scope = *scope;
        let ghost middle = resources;
        let validate_info = match validate(
            scope,
            config,
            runner,
            &mut resources,
            self.contract_address,
            VALIDATE_DEPLOY_ENTRY_POINT_SELECTOR,
            copy_felts(&self.constructor_calldata),
        ) {
            Ok(info) => info,
            Err(e) => {
                return Err(e);
            },
        };
        let ghost before_settle = *scope;
        proof {
            assert(deployed(
                runner,
                config,
                held,
                deployed_scope,
                ExecutionResourcesManager::empty(),
                middle,
                self.contract_address,
                self.class_hash,
                self.constructor_calldata@,
                Address(Felt { hi: 0, lo: 0 }),
                Ok(call_info),
            ));
            assert(validated(
                runner,
                config,
                deployed_scope,
                before_settle,
                middle,
                resources,
                self.contract_address,
                VALIDATE_DEPLOY_ENTRY_POINT_SELECTOR,
                self.constructor_calldata@,
                Ok(validate_info),
            ));
            assert(self.phases_ran(
                runner,
                config,
                *old(scope),
                before_settle,
                resources,
                validate_info,
                call_info,
            ));
        }
        let actual_fee = match settle(scope, config, &resources, self.contract_address, self.nonce, self.max_fee) {
            Ok(fee) => fee,
            Err(e) => {
                proof {
                    assert(self.charged(runner, config, *old(scope), resources.fee(config.gas_price)));
                }
                return Err(e);
            },
        };
        Ok(
            TransactionExecutionInfo {
                validate_info: Some(validate_info),
                call_info,
                actual_fee,
                actual_resources: resources,
            },
        )
    }
}

impl Transaction {
    /// The refusal that is certain from what a state has cached, before the
    /// reader or the virtual machine is asked: a nonce that differs from the
    /// cached one, or a cached class hash at the address of a deployment.
    pub open spec fn refusal(&self, cache: StateCacheView) -> Option<TransactionError> {
        match *self {
            Transaction::InvokeFunction(tx) => nonce_refusal(cache, tx.contract_address, tx.nonce),
            Transaction::Declare(tx) => nonce_refusal(cache, tx.sender_address, tx.nonce),
            Transaction::Deploy(tx) => if cache.get_class_hash(tx.contract_address).is_some() {
                Some(TransactionError::ContractAddressUnavailable(tx.contract_address))
            } else {
                None
            },
            Transaction::DeployAccount(tx) => tx.refusal(cache),
        }
    }

    /// When the transaction fails with `e`: each fault only where it is
    /// owed, as the kind of transaction says.
    pub open spec fn refused<'a, T: StateReader + Clone, R: Runner<T>>(
        &self,
        runner: &'a R,
        config: &'a StarknetGeneralConfig,
        scope: CachedState<T>,
        e: TransactionError,
    ) -> bool {
        match *self {
            Transaction::InvokeFunction(tx) => tx.refused(runner, config, scope, e),
            Transaction::Declare(tx) => tx.refused(runner, config, scope, e),
            Transaction::Deploy(tx) => tx.refused(runner, config, scope, e),
            Transaction::DeployAccount(tx) => tx.refused(runner, config, scope, e),
        }
    }

    /// What holds of every transaction that succeeds against `scope`: its
    /// records, its ledger and the cache `ended` that it leaves are those of
    /// the runs that its kind asks for.
    pub open spec fn succeeded<'a, T: StateReader + Clone, R: Runner<T>>(
        &self,
        runner: &'a R,
        config: &'a StarknetGeneralConfig,
        scope: CachedState<T>,
        ended: StateCacheView,
        info: TransactionExecutionInfo,
    ) -> bool {
        match *self {
            Transaction::InvokeFunction(tx) => tx.succeeded(runner, config, scope, ended, info),
            Transaction::Declare(tx) => tx.succeeded(runner, config, scope, ended, info),
            Transaction::Deploy(tx) => tx.succeeded(runner, config, scope, ended, info),
            Transaction::DeployAccount(tx) => tx.succeeded(runner, config, scope, ended, info),
        }
    }

    /// The account that answers for the transaction and the nonce that the
    /// transaction carries; a plain deployment has neither.
    pub open spec fn sender(&self) -> Option<(Address, Felt)> {
        match *self {
            Transaction::InvokeFunction(tx) => Some((tx.contract_address, tx.nonce)),
            Transaction::Declare(tx) => Some((tx.sender_address, tx.nonce)),
            Transaction::Deploy(_) => None,
            Transaction::DeployAccount(tx) => Some((tx.contract_address, tx.nonce)),
        }
    }

    /// The nonce of the transaction, if it carries one, was held against
    /// the nonce of its account as `scope` has it.
    pub open spec fn nonce_held<T: StateReader>(
        &self,
        scope: CachedState<T>,
        r: Result<TransactionExecutionInfo, TransactionError>,
    ) -> bool {
        match self.sender() {
            Some((account, nonce)) => nonce_checked(scope, account, nonce, r),
            None => true,
        }
    }

    /// What can be read off a successful transaction without its runs: the
    /// fields of its records and the writes in the cache that it leaves.
    pub open spec fn applied(
        &self,
        config: StarknetGeneralConfig,
        cache: StateCacheView,
        info: TransactionExecutionInfo,
    ) -> bool {
        match *self {
            Transaction::InvokeFunction(tx) => tx.applied(config, cache, info),
            Transaction::Declare(tx) => tx.applied(config, cache, info),
            Transaction::Deploy(tx) => tx.applied(config, cache, info),
            Transaction::DeployAccount(tx) => tx.applied(config, cache, info),
        }
    }

    /// What holds of every execution of the transaction against a state:
    /// `after` and `result` are the state and the result that it leaves of
    /// `before`.  The transaction runs in a copy of the state, where its
    /// nonce is held against the account's.  A failure leaves the state as
    /// it was; a refusal that is certain from the cache is the result; a
    /// success changes only the writes, and leaves what
    /// [`Transaction::applied`] says.
    pub open spec fn executed<'a, T: StateReader + Clone, R: Runner<T>>(
        &self,
        runner: &'a R,
        config: &'a StarknetGeneralConfig,
        before: CachedState<T>,
        after: CachedState<T>,
        result: Result<TransactionExecutionInfo, TransactionError>,
    ) -> bool {
        &&& same_reader_and_initial(before, after)
        &&& match result {
            Err(e) => exists|scope: CachedState<T>|
                scope.cache@ == before.cache@ && cloned::<T>(before.state_reader, scope.state_reader)
                    && #[trigger] self.refused(runner, config, scope, e),
            Ok(info) => exists|scope: CachedState<T>, ended: StateCacheView|
                scope.cache@ == before.cache@ && cloned::<T>(before.state_reader, scope.state_reader)
                    && #[trigger] self.succeeded(runner, config, scope, ended, info) && after.cache@
                    == before.cache@.update_writes_from_other(ended),
        }
        &&& exists|scope: CachedState<T>|
            scope.cache@ == before.cache@ && cloned::<T>(before.state_reader, scope.state_reader)
                && #[trigger] self.nonce_held(scope, result)
        &&& match self.refusal(before.cache@) {
            Some(e) => result == Err::<TransactionExecutionInfo, TransactionError>(e),
            None => true,
        }
        &&& match result {
            Ok(info) => self.applied(*config, after.cache@, info) && exists|scope: StateCacheView| #[trigger]
                before.cache@.update_writes_from_other(scope) == after.cache@,
            Err(_) => after == before,
        }
    }

    /// Applies the transaction to `scope`, phase by phase; a failure may
    /// leave the writes of earlier phases in `scope`.
    pub fn apply<T: StateReader + Clone, R: Runner<T>>(
        &self,
        scope: &mut CachedState<T>,
        config: &StarknetGeneralConfig,
        runner: &R,
    ) -> (r: Result<TransactionExecutionInfo, TransactionError>)
        ensures
            final(scope).state_reader == old(scope).state_reader,
            self.refusal(old(scope).cache@) matches Some(e) ==> r == Err::<
                TransactionExecutionInfo,
                TransactionError,
            >(e),
            self.nonce_held(*old(scope), r),
            r matches Ok(info) ==> self.applied(*config, final(scope).cache@, info),
            r matches Ok(info) ==> self.succeeded(runner, config, *old(scope), final(scope).cache@, info),
            r matches Err(e) ==> self.refused(runner, config, *old(scope), e),
    {
        match self {
            Transaction::InvokeFunction(tx) => tx.apply(scope, config, runner),
            Transaction::Declare(tx) => tx.apply(scope, config, runner),
            Transaction::Deploy(tx) => tx.apply(scope, config, runner),
            Transaction::DeployAccount(tx) => tx.apply(scope, config, runner),
        }
    }

    /// Ends a transaction that ran in `scope`.  If it succeeded, the writes
    /// of the scope are merged into `state`; if it failed, `state` stays
    /// exactly as it was.
    pub fn commit<T: StateReader>(
        state: &mut CachedState<T>,
        scope: &CachedState<T>,
        result: Result<TransactionExecutionInfo, TransactionError>,
    ) -> (r: Result<TransactionExecutionInfo, TransactionError>)
        ensures
            r == result,
            final(state).state_reader == old(state).state_reader,
            match result {
                Ok(_) => final(state).cache@ == old(state).cache@.update_writes_from_other(scope.cache@),
                Err(_) => *final(state) == *old(state),
            },
    {
        match result {
            Ok(info) => {
                state.merge_child(scope);
                Ok(info)
            },
            Err(e) => Err(e),
        }
    }

    /// Executes the transaction against `state`.  It is atomic: every phase
    /// runs in a scope of its own, and only if all of them succeed are the
    /// writes merged into `state`.  A transaction that fails leaves `state`
    /// exactly as it was; one that succeeds changes only the writes.
    pub fn execute<T: StateReader + Clone, R: Runner<T>>(
        &self,
        state: &mut CachedState<T>,
        config: &StarknetGeneralConfig,
        runner: &R,
    ) -> (r: Result<TransactionExecutionInfo, TransactionError>)
        ensures
            self.executed(runner, config, *old(state), *final(state), r),
    {
        let mut scope = state.clone();
        let ghost copy = scope;
        let result = self.apply(&mut scope, config, runner);
        let r = Transaction::commit(state, &scope, result);
        proof {
            assert(self.nonce_held(copy, r));
            if r is Err {
                assert(self.refused(runner, config, copy, r->Err_0));
            }
            if r is Ok {
                assert(self.succeeded(runner, config, copy, scope.cache@, r->Ok_0));
                assert(old(state).cache@.update_writes_from_other(scope.cache@) == state.cache@);
            }
        }
        r
    }
}

} // verus!
