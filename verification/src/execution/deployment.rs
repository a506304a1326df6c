//! Putting a class at an address and running its constructor.

use crate::contract_class::{ContractClass, EntryPointType};
use crate::definitions::constants::CONSTRUCTOR_ENTRY_POINT_SELECTOR;
use crate::definitions::general_config::StarknetGeneralConfig;
use crate::errors::{ExecutionError, StateError};
use crate::execution::execution_entry_point::{ExecutionEntryPoint, Runner};
use crate::execution::objects::{CallInfo, CallType, ExecutionResourcesManager};
use crate::felt::{copy_felts, Address, ClassHash, Felt};
use crate::state::cached_state::{read_class_hash, CachedState};
use crate::state::state_api::StateReader;
use crate::state::state_cache::StateCacheView;
use vstd::prelude::*;

verus! {

/// The selector of a constructor, as a value.
pub open spec fn constructor_selector() -> Felt {
    Felt { hi: 0, lo: CONSTRUCTOR_ENTRY_POINT_SELECTOR }
}

/// Whether a deployment may go ahead, given what reading the class hash at
/// its address yielded: only an address at which nothing is deployed is free.
pub fn check_address_free(contract_address: Address, found: Result<ClassHash, StateError>) -> (r: Result<
    (),
    ExecutionError,
>)
    ensures
        r == (match found {
            Ok(_) => Err::<(), ExecutionError>(ExecutionError::ContractAddressUnavailable(contract_address)),
            Err(_) => Ok::<(), ExecutionError>(()),
        }),
{
    match found {
        Ok(_) => Err(ExecutionError::ContractAddressUnavailable(contract_address)),
        Err(_) => Ok(()),
    }
}

/// What a class without a constructor makes of the arguments: none are
/// fine, and no constructor runs; any are refused.
pub open spec fn without_constructor(constructor_calldata: Seq<Felt>) -> Result<bool, ExecutionError> {
    if constructor_calldata.len() == 0 {
        Ok(false)
    } else {
        Err(ExecutionError::UnexpectedConstructorCalldata)
    }
}

/// Holds the arguments of a deployment against a class that declares no
/// constructor.
pub fn expect_no_arguments(constructor_calldata: &Vec<Felt>) -> (r: Result<bool, ExecutionError>)
    ensures
        r == without_constructor(constructor_calldata@),
{
    if constructor_calldata.len() == 0 {
        Ok(false)
    } else {
        Err(ExecutionError::UnexpectedConstructorCalldata)
    }
}

/// The start of a deployment, given what the reader answers: `fetched_hash`
/// where it is asked for the class hash at the address, `fetched_class`
/// where it is asked for the class.  An address with a class hash, cached
/// or fetched, is unavailable; failing that, a class hash without a class
/// is `ClassNotFound`; failing that, a class without a constructor refuses
/// arguments.  Otherwise the class hash is written at the address, and the
/// result says whether a constructor is to run.
pub open spec fn deployment_begun(
    cache: StateCacheView,
    contract_address: Address,
    class_hash: ClassHash,
    constructor_calldata: Seq<Felt>,
    fetched_hash: Option<ClassHash>,
    fetched_class: Option<ContractClass>,
) -> (StateCacheView, Result<bool, ExecutionError>) {
    let looked = read_class_hash(cache, contract_address, fetched_hash);
    match looked.1 {
        Ok(_) => (looked.0, Err(ExecutionError::ContractAddressUnavailable(contract_address))),
        Err(_) => match fetched_class {
            None => (looked.0, Err(ExecutionError::State(StateError::ClassNotFound(class_hash)))),
            Some(class) => {
                let constructs = match class.spec_entry_point_offset(
                    EntryPointType::Constructor,
                    constructor_selector(),
                ) {
                    Some(_) => Ok(true),
                    None => without_constructor(constructor_calldata),
                };
                match constructs {
                    Ok(_) => (looked.0.write_class_hash(contract_address, class_hash), constructs),
                    Err(_) => (looked.0, constructs),
                }
            },
        },
    }
}

/// `fetched_hash` and `fetched_class` are answers that the reader of
/// `scope` may give where the start of a deployment asks it.
pub open spec fn reader_may_answer_deployment<T: StateReader>(
    scope: CachedState<T>,
    contract_address: Address,
    class_hash: ClassHash,
    fetched_hash: Option<ClassHash>,
    fetched_class: Option<ContractClass>,
) -> bool {
    &&& scope.cache@.get_class_hash(contract_address).is_none() ==> scope.reader_may_answer_class_hash(
        contract_address,
        fetched_hash,
    )
    &&& read_class_hash(scope.cache@, contract_address, fetched_hash).1.is_err()
        ==> scope.reader_may_answer_class(class_hash, fetched_class)
}

/// Starts a deployment of the class `class_hash` at `contract_address` in
/// `scope`: the address must be free and the class known, and a class
/// without a constructor takes no arguments.  Then the class hash is
/// written at the address.  The result says whether a constructor is to run.
pub fn begin_deployment<T: StateReader>(
    scope: &mut CachedState<T>,
    contract_address: Address,
    class_hash: ClassHash,
    constructor_calldata: &Vec<Felt>,
) -> (r: Result<bool, ExecutionError>)
    ensures
        final(scope).state_reader == old(scope).state_reader,
        exists|fetched_hash: Option<ClassHash>, fetched_class: Option<ContractClass>| #[trigger]
            reader_may_answer_deployment(*old(scope), contract_address, class_hash, fetched_hash, fetched_class)
                && (final(scope).cache@, r) == deployment_begun(
                old(scope).cache@,
                contract_address,
                class_hash,
                constructor_calldata@,
                fetched_hash,
                fetched_class,
            ),
{
    let ghost before = *scope;
    let ghost mut fetched_hash: Option<ClassHash> = None;
    let found = scope.get_class_hash_at(&contract_address);
    proof {
        if before.cache@.get_class_hash(contract_address).is_none() {
            fetched_hash = choose|fetched: Option<ClassHash>| #[trigger]
                before.reader_may_answer_class_hash(contract_address, fetched) && (scope.cache@, found)
                    == read_class_hash(before.cache@, contract_address, fetched);
        }
    }
    assert((scope.cache@, found) == read_class_hash(before.cache@, contract_address, fetched_hash));
    match check_address_free(contract_address, found) {
        Ok(()) => {},
        Err(e) => {
            assert(reader_may_answer_deployment(before, contract_address, class_hash, fetched_hash, None));
            return Err(e);
        },
    }
    let looked_up = scope.get_contract_class(&class_hash);
    let ghost fetched_class = choose|fetched: Option<ContractClass>| #[trigger]
        scope.reader_may_answer_class(class_hash, fetched) && looked_up == crate::state::cached_state::class_lookup(
            class_hash,
            fetched,
        );
    assert(before.reader_may_answer_class(class_hash, fetched_class));
    assert(reader_may_answer_deployment(before, contract_address, class_hash, fetched_hash, fetched_class));
    let class = match looked_up {
        Ok(class) => class,
        Err(e) => {
            return Err(ExecutionError::State(e));
        },
    };
    let selector = Felt::from_u128(CONSTRUCTOR_ENTRY_POINT_SELECTOR);
    let constructs = match class.entry_point_offset(EntryPointType::Constructor, selector) {
        Some(_) => Ok(true),
        None => expect_no_arguments(constructor_calldata),
    };
    match constructs {
        Ok(run) => {
            scope.set_class_hash_at(contract_address, class_hash);
            Ok(run)
        },
        Err(e) => Err(e),
    }
}

/// `entry` is the invocation of the constructor of a deployment.
pub open spec fn constructor_call(
    entry: ExecutionEntryPoint,
    contract_address: Address,
    class_hash: ClassHash,
    constructor_calldata: Seq<Felt>,
    caller_address: Address,
) -> bool {
    &&& entry.call_type == CallType::Call
    &&& entry.contract_address == contract_address
    &&& entry.class_hash == Some(class_hash)
    &&& entry.entry_point_selector == constructor_selector()
    &&& entry.entry_point_type == EntryPointType::Constructor
    &&& entry.calldata@ == constructor_calldata
    &&& entry.caller_address == caller_address
}

/// What holds of every run of a constructor: it is a run of the
/// constructor's invocation, after which, if it succeeded, the class hash
/// is written at the address once more, whatever the run wrote there.
pub open spec fn constructor_ran<'a, T: StateReader + Clone, R: Runner<T>>(
    runner: &'a R,
    config: &'a StarknetGeneralConfig,
    before: CachedState<T>,
    after: CachedState<T>,
    resources_before: ExecutionResourcesManager,
    resources_after: ExecutionResourcesManager,
    contract_address: Address,
    class_hash: ClassHash,
    constructor_calldata: Seq<Felt>,
    caller_address: Address,
    r: Result<CallInfo, ExecutionError>,
) -> bool {
    exists|entry: ExecutionEntryPoint, middle: CachedState<T>|
        constructor_call(entry, contract_address, class_hash, constructor_calldata, caller_address)
            && #[trigger] entry.ran(runner, config, before, middle, resources_before, resources_after, r) && (
        match r {
            Ok(_) => after.state_reader == middle.state_reader && after.cache@ == middle.cache@.write_class_hash(
                contract_address,
                class_hash,
            ),
            Err(_) => after == middle,
        })
}

/// Runs the constructor of the class `class_hash` for the contract at
/// `contract_address` on behalf of `caller_address`.  After a success the
/// address holds the class, whatever the constructor and its calls wrote.
pub fn run_constructor<T: StateReader + Clone, R: Runner<T>>(
    scope: &mut CachedState<T>,
    config: &StarknetGeneralConfig,
    runner: &R,
    resources: &mut ExecutionResourcesManager,
    contract_address: Address,
    class_hash: ClassHash,
    constructor_calldata: &Vec<Felt>,
    caller_address: Address,
) -> (r: Result<CallInfo, ExecutionError>)
    ensures
        constructor_ran(
            runner,
            config,
            *old(scope),
            *final(scope),
            *old(resources),
            *final(resources),
            contract_address,
            class_hash,
            constructor_calldata@,
            caller_address,
            r,
        ),
        final(scope).state_reader == old(scope).state_reader,
        r.is_err() ==> *final(scope) == *old(scope),
        r matches Ok(info) ==> info.calldata@ == constructor_calldata@ && info.contract_address
            == contract_address && info.caller_address == caller_address && info.entry_point_type
            == EntryPointType::Constructor && info.class_hash == class_hash && final(scope).cache@.class_hash_writes.contains_key(contract_address) && final(scope).cache@.class_hash_writes[contract_address]
            == class_hash,
        final(scope).cache@.class_hash_initial_values == old(scope).cache@.class_hash_initial_values,
        final(scope).cache@.nonce_initial_values == old(scope).cache@.nonce_initial_values,
        final(scope).cache@.storage_initial_values == old(scope).cache@.storage_initial_values,
{
    let entry_point = ExecutionEntryPoint::new(
        contract_address,
        copy_felts(constructor_calldata),
        Felt::from_u128(CONSTRUCTOR_ENTRY_POINT_SELECTOR),
        caller_address,
        EntryPointType::Constructor,
        CallType::Call,
        Some(class_hash),
    );
    let r = entry_point.execute(scope, config, runner, resources);
    let ghost middle = *scope;
    match &r {
        Ok(_) => {
            scope.set_class_hash_at(contract_address, class_hash);
        },
        Err(_) => {},
    }
    proof {
        assert(constructor_call(entry_point, contract_address, class_hash, constructor_calldata@, caller_address));
        assert(entry_point.ran(runner, config, *old(scope), middle, *old(resources), *resources, r));
    }
    r
}

/// The result of a deployment whose constructor ran with `result`.
pub open spec fn constructed(result: Result<CallInfo, ExecutionError>) -> Result<Option<CallInfo>, ExecutionError> {
    match result {
        Ok(info) => Ok(Some(info)),
        Err(e) => Err(e),
    }
}

/// What holds of every deployment: its start is decided by what the reader
/// answers, as [`deployment_begun`] says; a start that fails is the result;
/// a class without a constructor yields no record; otherwise the
/// constructor runs, and its record or its fault is the result.
pub open spec fn deployed<'a, T: StateReader + Clone, R: Runner<T>>(
    runner: &'a R,
    config: &'a StarknetGeneralConfig,
    before: CachedState<T>,
    after: CachedState<T>,
    resources_before: ExecutionResourcesManager,
    resources_after: ExecutionResourcesManager,
    contract_address: Address,
    class_hash: ClassHash,
    constructor_calldata: Seq<Felt>,
    caller_address: Address,
    r: Result<Option<CallInfo>, ExecutionError>,
) -> bool {
    exists|fetched_hash: Option<ClassHash>, fetched_class: Option<ContractClass>| #[trigger]
        reader_may_answer_deployment(before, contract_address, class_hash, fetched_hash, fetched_class) && ({
            let begun = deployment_begun(
                before.cache@,
                contract_address,
                class_hash,
                constructor_calldata,
                fetched_hash,
                fetched_class,
            );
            match begun.1 {
                Err(e) => r == Err::<Option<CallInfo>, ExecutionError>(e) && after.state_reader
                    == before.state_reader && after.cache@ == begun.0 && resources_after == resources_before,
                Ok(false) => r == Ok::<Option<CallInfo>, ExecutionError>(None) && after.state_reader
                    == before.state_reader && after.cache@ == begun.0 && resources_after == resources_before,
                Ok(true) => exists|started: CachedState<T>, result: Result<CallInfo, ExecutionError>|
                    started.state_reader == before.state_reader && started.cache@ == begun.0
                        && #[trigger] constructor_ran(
                        runner,
                        config,
                        started,
                        after,
                        resources_before,
                        resources_after,
                        contract_address,
                        class_hash,
                        constructor_calldata,
                        caller_address,
                        result,
                    ) && r == constructed(result),
            }
        })
}

/// Deploys the class `class_hash` at `contract_address` in `scope` and runs
/// its constructor, if it declares one, on behalf of `caller_address`.  The
/// address must be free and the class known; a class without a constructor
/// takes no arguments.  After a success the address holds the class; a
/// constructor that fails leaves the class hash written.
pub fn deploy_contract<T: StateReader + Clone, R: Runner<T>>(
    scope: &mut CachedState<T>,
    config: &StarknetGeneralConfig,
    runner: &R,
    resources: &mut ExecutionResourcesManager,
    contract_address: Address,
    class_hash: ClassHash,
    constructor_calldata: &Vec<Felt>,
    caller_address: Address,
) -> (r: Result<Option<CallInfo>, ExecutionError>)
    ensures
        deployed(
            runner,
            config,
            *old(scope),
            *final(scope),
            *old(resources),
            *final(resources),
            contract_address,
            class_hash,
            constructor_calldata@,
            caller_address,
            r,
        ),
        final(scope).state_reader == old(scope).state_reader,
        old(scope).cache@.get_class_hash(contract_address).is_some() ==> r == Err::<
            Option<CallInfo>,
            ExecutionError,
        >(ExecutionError::ContractAddressUnavailable(contract_address)) && final(scope).cache@ == old(scope).cache@,
        r.is_ok() ==> final(scope).cache@.get_class_hash(contract_address) == Some(class_hash),
        r.is_ok() ==> final(scope).cache@.class_hash_writes.contains_key(contract_address) && final(scope).cache@.class_hash_writes[contract_address] == class_hash,
        r matches Ok(Some(info)) ==> info.calldata@ == constructor_calldata@ && info.contract_address
            == contract_address && info.caller_address == caller_address && info.entry_point_type
            == EntryPointType::Constructor && info.class_hash == class_hash,
        r matches Ok(None) ==> constructor_calldata@.len() == 0,
{
    let ghost before = *scope;
    let begun = begin_deployment(scope, contract_address, class_hash, constructor_calldata);
    let ghost answers = choose|fetched_hash: Option<ClassHash>, fetched_class: Option<ContractClass>| #[trigger]
        reader_may_answer_deployment(before, contract_address, class_hash, fetched_hash, fetched_class) && (
        scope.cache@,
        begun,
    ) == deployment_begun(
        before.cache@,
        contract_address,
        class_hash,
        constructor_calldata@,
        fetched_hash,
        fetched_class,
    );
    assert(reader_may_answer_deployment(before, contract_address, class_hash, answers.0, answers.1));
    match begun {
        Err(e) => Err(e),
        Ok(false) => Ok(None),
        Ok(true) => {
            let ghost started = *scope;
            let result = run_constructor(
                scope,
                config,
                runner,
                resources,
                contract_address,
                class_hash,
                constructor_calldata,
                caller_address,
            );
            proof {
                assert(constructor_ran(
                    runner,
                    config,
                    started,
                    *scope,
                    *old(resources),
                    *resources,
                    contract_address,
                    class_hash,
                    constructor_calldata@,
                    caller_address,
                    result,
                ));
            }
            match result {
                Ok(info) => Ok(Some(info)),
                Err(e) => Err(e),
            }
        },
    }
}

} // verus!
