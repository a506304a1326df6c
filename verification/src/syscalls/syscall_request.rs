//! The requests of a running contract and their layout in the memory of the
//! virtual machine.
//!
//! A request starts at the cell that the machine points to.  The first cell
//! holds the selector, the second the gas that the contract has left; the
//! cells after them hold the arguments:
//!
//! | request            | cell 2            | cell 3         | cell 4          | cell 5        |
//! |--------------------|-------------------|----------------|-----------------|---------------|
//! | storage read       | key               |                |                 |               |
//! | storage write      | key               | value          |                 |               |
//! | call contract      | contract address  | selector       | calldata length | calldata      |
//! | library call       | class hash        | selector       | calldata length | calldata      |
//! | deploy             | class hash        | salt           | calldata length | calldata      |
//! | emit event         | number of keys    | keys           | length of data  | data          |
//! | get caller address |                   |                |                 |               |
//!
//! Calldata, keys and data are pointers to as many cells as the length
//! before them says.  The response is written into the cells that follow
//! the request.

use crate::definitions::constants::{
    CALL_CONTRACT_SELECTOR, DEPLOY_SELECTOR, EMIT_EVENT_SELECTOR, GET_CALLER_ADDRESS_SELECTOR,
    LIBRARY_CALL_SELECTOR, STORAGE_READ_SELECTOR, STORAGE_WRITE_SELECTOR,
};
use crate::errors::SyscallHandlerError;
use crate::execution::objects::SyscallKind;
use crate::felt::{Address, Felt};
use crate::utils::{
    bigint_to_felt, bigints_to_felts, cell_address, cell_readable, felt_of_big_int, felt_of_cell,
    felts_of_range,
    get_big_int, get_integer, get_integer_range, get_relocatable, index_of_cell, integer_cell,
    offset_by, pointer_of_cell, range_readable, vm_relocatable_at, Relocatable,
};
use cairo_vm::vm::vm_core::VirtualMachine;
use vstd::prelude::*;

verus! {

/// A request of a running contract, decoded.
#[derive(Debug, PartialEq, Eq)]
pub enum SyscallRequest {
    StorageRead { key: Felt },
    StorageWrite { key: Felt, value: Felt },
    CallContract { contract_address: Address, entry_point_selector: Felt, calldata: Vec<Felt> },
    LibraryCall { class_hash: Felt, entry_point_selector: Felt, calldata: Vec<Felt> },
    Deploy { class_hash: Felt, contract_address_salt: Felt, constructor_calldata: Vec<Felt> },
    EmitEvent { keys: Vec<Felt>, data: Vec<Felt> },
    GetCallerAddress,
}

/// A request as specifications see it: sequences in place of vectors.
pub enum SyscallRequestView {
    StorageRead { key: Felt },
    StorageWrite { key: Felt, value: Felt },
    CallContract { contract_address: Address, entry_point_selector: Felt, calldata: Seq<Felt> },
    LibraryCall { class_hash: Felt, entry_point_selector: Felt, calldata: Seq<Felt> },
    Deploy { class_hash: Felt, contract_address_salt: Felt, constructor_calldata: Seq<Felt> },
    EmitEvent { keys: Seq<Felt>, data: Seq<Felt> },
    GetCallerAddress,
}

impl View for SyscallRequest {
    type V = SyscallRequestView;

    open spec fn view(&self) -> SyscallRequestView {
        match *self {
            SyscallRequest::StorageRead { key } => SyscallRequestView::StorageRead { key },
            SyscallRequest::StorageWrite { key, value } => SyscallRequestView::StorageWrite { key, value },
            SyscallRequest::CallContract {
                contract_address,
                entry_point_selector,
                calldata,
            } => SyscallRequestView::CallContract {
                contract_address,
                entry_point_selector,
                calldata: calldata@,
            },
            SyscallRequest::LibraryCall {
                class_hash,
                entry_point_selector,
                calldata,
            } => SyscallRequestView::LibraryCall { class_hash, entry_point_selector, calldata: calldata@ },
            SyscallRequest::Deploy {
                class_hash,
                contract_address_salt,
                constructor_calldata,
            } => SyscallRequestView::Deploy {
                class_hash,
                contract_address_salt,
                constructor_calldata: constructor_calldata@,
            },
            SyscallRequest::EmitEvent { keys, data } => SyscallRequestView::EmitEvent {
                keys: keys@,
                data: data@,
            },
            SyscallRequest::GetCallerAddress => SyscallRequestView::GetCallerAddress,
        }
    }
}

impl SyscallRequestView {
    /// The kind of the request.
    pub open spec fn kind(self) -> SyscallKind {
        match self {
            SyscallRequestView::StorageRead { .. } => SyscallKind::StorageRead,
            SyscallRequestView::StorageWrite { .. } => SyscallKind::StorageWrite,
            SyscallRequestView::CallContract { .. } => SyscallKind::CallContract,
            SyscallRequestView::LibraryCall { .. } => SyscallKind::LibraryCall,
            SyscallRequestView::Deploy { .. } => SyscallKind::Deploy,
            SyscallRequestView::EmitEvent { .. } => SyscallKind::EmitEvent,
            SyscallRequestView::GetCallerAddress => SyscallKind::GetCallerAddress,
        }
    }
}

/// The kind of request that a selector names, if any.
pub open spec fn kind_of_selector(selector: Felt) -> Option<SyscallKind> {
    if selector.hi != 0 {
        None
    } else if selector.lo == STORAGE_READ_SELECTOR {
        Some(SyscallKind::StorageRead)
    } else if selector.lo == STORAGE_WRITE_SELECTOR {
        Some(SyscallKind::StorageWrite)
    } else if selector.lo == CALL_CONTRACT_SELECTOR {
        Some(SyscallKind::CallContract)
    } else if selector.lo == LIBRARY_CALL_SELECTOR {
        Some(SyscallKind::LibraryCall)
    } else if selector.lo == DEPLOY_SELECTOR {
        Some(SyscallKind::Deploy)
    } else if selector.lo == EMIT_EVENT_SELECTOR {
        Some(SyscallKind::EmitEvent)
    } else if selector.lo == GET_CALLER_ADDRESS_SELECTOR {
        Some(SyscallKind::GetCallerAddress)
    } else {
        None
    }
}

/// The kind of request that `selector` names; a selector that names none is
/// an unknown request.
pub fn syscall_kind(selector: &Felt) -> (r: Result<SyscallKind, SyscallHandlerError>)
    ensures
        r == (match kind_of_selector(*selector) {
            Some(kind) => Ok::<SyscallKind, SyscallHandlerError>(kind),
            None => Err::<SyscallKind, SyscallHandlerError>(SyscallHandlerError::UnknownSyscall),
        }),
{
    if selector.hi != 0 {
        Err(SyscallHandlerError::UnknownSyscall)
    } else if selector.lo == STORAGE_READ_SELECTOR {
        Ok(SyscallKind::StorageRead)
    } else if selector.lo == STORAGE_WRITE_SELECTOR {
        Ok(SyscallKind::StorageWrite)
    } else if selector.lo == CALL_CONTRACT_SELECTOR {
        Ok(SyscallKind::CallContract)
    } else if selector.lo == LIBRARY_CALL_SELECTOR {
        Ok(SyscallKind::LibraryCall)
    } else if selector.lo == DEPLOY_SELECTOR {
        Ok(SyscallKind::Deploy)
    } else if selector.lo == EMIT_EVENT_SELECTOR {
        Ok(SyscallKind::EmitEvent)
    } else if selector.lo == GET_CALLER_ADDRESS_SELECTOR {
        Ok(SyscallKind::GetCallerAddress)
    } else {
        Err(SyscallHandlerError::UnknownSyscall)
    }
}

/// The number of cells that a request of the given kind takes; its response
/// is written into the cells after them.
pub fn request_size(kind: SyscallKind) -> (r: usize)
    ensures
        r == (match kind {
            SyscallKind::StorageRead => 3usize,
            SyscallKind::StorageWrite => 4usize,
            SyscallKind::CallContract => 6usize,
            SyscallKind::LibraryCall => 6usize,
            SyscallKind::Deploy => 6usize,
            SyscallKind::EmitEvent => 6usize,
            SyscallKind::GetCallerAddress => 2usize,
        }),
{
    match kind {
        SyscallKind::StorageRead => 3,
        SyscallKind::StorageWrite => 4,
        SyscallKind::CallContract => 6,
        SyscallKind::LibraryCall => 6,
        SyscallKind::Deploy => 6,
        SyscallKind::EmitEvent => 6,
        SyscallKind::GetCallerAddress => 2,
    }
}

/// The big integer in the cell `k` cells after `base`.
pub open spec fn felt_at(vm: VirtualMachine, base: Relocatable, k: int) -> Result<Felt, SyscallHandlerError> {
    felt_of_cell(integer_cell(vm, base, k))
}

/// The index in the cell `k` cells after `base`.
pub open spec fn index_at(vm: VirtualMachine, base: Relocatable, k: int) -> Result<
    usize,
    SyscallHandlerError,
> {
    index_of_cell(integer_cell(vm, base, k))
}

/// The gas in the cell after `base`: a big integer that must fit 64 bits.
pub open spec fn gas_at(vm: VirtualMachine, base: Relocatable) -> Result<u64, SyscallHandlerError> {
    match felt_at(vm, base, 1) {
        Err(e) => Err(e),
        Ok(gas) => if gas.value() <= u64::MAX {
            Ok(gas.value() as u64)
        } else {
            Err(SyscallHandlerError::IntegerOverflow)
        },
    }
}

/// The pointer in the cell `k` cells after `base`.
pub open spec fn pointer_at(vm: VirtualMachine, base: Relocatable, k: int) -> Result<
    Relocatable,
    SyscallHandlerError,
> {
    match cell_address(base, k) {
        Some(ptr) => pointer_of_cell(vm_relocatable_at(vm, ptr)),
        None => Err(SyscallHandlerError::SegmentationFault),
    }
}

/// The array whose length is in the cell `k` cells after `base` and whose
/// start is in the cell after that one.
pub open spec fn array_at(vm: VirtualMachine, base: Relocatable, k: int) -> Result<
    Seq<Felt>,
    SyscallHandlerError,
> {
    match index_at(vm, base, k) {
        Err(e) => Err(e),
        Ok(length) => match pointer_at(vm, base, k + 1) {
            Err(e) => Err(e),
            Ok(start) => felts_of_range(vm, start, length as int),
        },
    }
}

/// The arguments of a request of the given kind that starts at `base`.
pub open spec fn arguments_at(vm: VirtualMachine, base: Relocatable, kind: SyscallKind) -> Result<
    SyscallRequestView,
    SyscallHandlerError,
> {
    match kind {
        SyscallKind::StorageRead => match felt_at(vm, base, 2) {
            Err(e) => Err(e),
            Ok(key) => Ok(SyscallRequestView::StorageRead { key }),
        },
        SyscallKind::StorageWrite => match felt_at(vm, base, 2) {
            Err(e) => Err(e),
            Ok(key) => match felt_at(vm, base, 3) {
                Err(e) => Err(e),
                Ok(value) => Ok(SyscallRequestView::StorageWrite { key, value }),
            },
        },
        SyscallKind::CallContract => match felt_at(vm, base, 2) {
            Err(e) => Err(e),
            Ok(address) => match felt_at(vm, base, 3) {
                Err(e) => Err(e),
                Ok(entry_point_selector) => match array_at(vm, base, 4) {
                    Err(e) => Err(e),
                    Ok(calldata) => Ok(
                        SyscallRequestView::CallContract {
                            contract_address: Address(address),
                            entry_point_selector,
                            calldata,
                        },
                    ),
                },
            },
        },
        SyscallKind::LibraryCall => match felt_at(vm, base, 2) {
            Err(e) => Err(e),
            Ok(class_hash) => match felt_at(vm, base, 3) {
                Err(e) => Err(e),
                Ok(entry_point_selector) => match array_at(vm, base, 4) {
                    Err(e) => Err(e),
                    Ok(calldata) => Ok(
                        SyscallRequestView::LibraryCall { class_hash, entry_point_selector, calldata },
                    ),
                },
            },
        },
        SyscallKind::Deploy => match felt_at(vm, base, 2) {
            Err(e) => Err(e),
            Ok(class_hash) => match felt_at(vm, base, 3) {
                Err(e) => Err(e),
                Ok(contract_address_salt) => match array_at(vm, base, 4) {
                    Err(e) => Err(e),
                    Ok(constructor_calldata) => Ok(
                        SyscallRequestView::Deploy { class_hash, contract_address_salt, constructor_calldata },
                    ),
                },
            },
        },
        SyscallKind::EmitEvent => match array_at(vm, base, 2) {
            Err(e) => Err(e),
            Ok(keys) => match array_at(vm, base, 4) {
                Err(e) => Err(e),
                Ok(data) => Ok(SyscallRequestView::EmitEvent { keys, data }),
            },
        },
        SyscallKind::GetCallerAddress => Ok(SyscallRequestView::GetCallerAddress),
    }
}

/// The request that starts at `base`, with the gas that the contract has
/// left: the selector is read first, then the gas, then the arguments, and
/// the first fault met is the result.
pub open spec fn request_at(vm: VirtualMachine, base: Relocatable) -> Result<
    (SyscallRequestView, u64),
    SyscallHandlerError,
> {
    match felt_at(vm, base, 0) {
        Err(e) => Err(e),
        Ok(selector) => match kind_of_selector(selector) {
            None => Err(SyscallHandlerError::UnknownSyscall),
            Some(kind) => match gas_at(vm, base) {
                Err(e) => Err(e),
                Ok(gas) => match arguments_at(vm, base, kind) {
                    Err(e) => Err(e),
                    Ok(request) => Ok((request, gas)),
                },
            },
        },
    }
}

/// The cells of the array at `k` that a read of it touches can be read: the
/// length, then the start, then as many cells from the start on as the
/// length says.
pub open spec fn array_readable(vm: VirtualMachine, base: Relocatable, k: int) -> bool {
    &&& cell_readable(vm, base, k)
    &&& match index_at(vm, base, k) {
        Ok(length) => cell_readable(vm, base, k + 1) && (match pointer_at(vm, base, k + 1) {
            Ok(start) => range_readable(vm, start, length as int),
            Err(_) => true,
        }),
        Err(_) => true,
    }
}

/// The cells that a read of the arguments of a request of the given kind
/// touches can be read.  The arguments are read in order, and a read that
/// fails ends the reading.
pub open spec fn arguments_readable(vm: VirtualMachine, base: Relocatable, kind: SyscallKind) -> bool {
    match kind {
        SyscallKind::StorageRead => cell_readable(vm, base, 2),
        SyscallKind::StorageWrite => cell_readable(vm, base, 2) && (felt_at(vm, base, 2).is_ok()
            ==> cell_readable(vm, base, 3)),
        SyscallKind::CallContract | SyscallKind::LibraryCall | SyscallKind::Deploy => cell_readable(
            vm,
            base,
            2,
        ) && (felt_at(vm, base, 2).is_ok() ==> cell_readable(vm, base, 3) && (felt_at(vm, base, 3).is_ok()
            ==> array_readable(vm, base, 4))),
        SyscallKind::EmitEvent => array_readable(vm, base, 2) && (array_at(vm, base, 2).is_ok()
            ==> array_readable(vm, base, 4)),
        SyscallKind::GetCallerAddress => true,
    }
}

/// The cells that a read of the request at `base` touches can be read: the
/// selector, then the gas, then the arguments.
pub open spec fn request_readable(vm: VirtualMachine, base: Relocatable) -> bool {
    &&& cell_readable(vm, base, 0)
    &&& match felt_at(vm, base, 0) {
        Ok(selector) => match kind_of_selector(selector) {
            Some(kind) => cell_readable(vm, base, 1) && (gas_at(vm, base).is_ok() ==> arguments_readable(
                vm,
                base,
                kind,
            )),
            None => true,
        },
        Err(_) => true,
    }
}

/// Reads the value of 256 bits in the cell `k` cells after `base`.
pub fn read_felt(vm: &VirtualMachine, base: &Relocatable, k: usize) -> (r: Result<Felt, SyscallHandlerError>)
    requires
        cell_readable(*vm, *base, k as int),
    ensures
        r == felt_at(*vm, *base, k as int),
{
    match offset_by(base, k) {
        Some(ptr) => {
            let found = get_big_int(vm, &ptr)?;
            bigint_to_felt(&found)
        },
        None => Err(SyscallHandlerError::SegmentationFault),
    }
}

/// Reads the index in the cell `k` cells after `base`.
pub fn read_index(vm: &VirtualMachine, base: &Relocatable, k: usize) -> (r: Result<
    usize,
    SyscallHandlerError,
>)
    requires
        cell_readable(*vm, *base, k as int),
    ensures
        r == index_at(*vm, *base, k as int),
{
    match offset_by(base, k) {
        Some(ptr) => get_integer(vm, &ptr),
        None => Err(SyscallHandlerError::SegmentationFault),
    }
}

/// Reads the gas in the cell after `base`.
pub fn read_gas(vm: &VirtualMachine, base: &Relocatable) -> (r: Result<u64, SyscallHandlerError>)
    requires
        cell_readable(*vm, *base, 1),
    ensures
        r == gas_at(*vm, *base),
{
    let gas = read_felt(vm, base, 1)?;
    match gas.to_u64() {
        Some(gas) => Ok(gas),
        None => Err(SyscallHandlerError::IntegerOverflow),
    }
}

/// Reads the pointer in the cell `k` cells after `base`.
pub fn read_pointer(vm: &VirtualMachine, base: &Relocatable, k: usize) -> (r: Result<
    Relocatable,
    SyscallHandlerError,
>)
    requires
        cell_readable(*vm, *base, k as int),
    ensures
        r == pointer_at(*vm, *base, k as int),
{
    match offset_by(base, k) {
        Some(ptr) => get_relocatable(vm, &ptr),
        None => Err(SyscallHandlerError::SegmentationFault),
    }
}

/// Reads the array whose length is in the cell `k` cells after `base` and
/// whose start is in the cell after that one.
pub fn read_array(vm: &VirtualMachine, base: &Relocatable, k: usize) -> (r: Result<
    Vec<Felt>,
    SyscallHandlerError,
>)
    requires
        array_readable(*vm, *base, k as int),
    ensures
        match r {
            Ok(values) => array_at(*vm, *base, k as int) == Ok::<Seq<Felt>, SyscallHandlerError>(values@),
            Err(e) => array_at(*vm, *base, k as int) == Err::<Seq<Felt>, SyscallHandlerError>(e),
        },
{
    let length = read_index(vm, base, k)?;
    if k == usize::MAX {
        return Err(SyscallHandlerError::SegmentationFault);
    }
    let start = read_pointer(vm, base, k + 1)?;
    let found = get_integer_range(vm, &start, length)?;
    let r = bigints_to_felts(&found);
    proof {
        assert forall|i: int| 0 <= i < length implies felt_of_big_int((#[trigger] found@[i]).value())
            == felt_of_cell(integer_cell(*vm, start, i)) by {
            assert(integer_cell(*vm, start, i) == Some(found@[i].bytes@));
        }
        match &r {
            Ok(felts) => {
                assert forall|i: int| 0 <= i < length implies felt_of_cell(
                    #[trigger] integer_cell(*vm, start, i),
                ) == Ok::<Felt, SyscallHandlerError>(felts@[i]) by {
                    assert(felt_of_big_int(found@[i].value()) == Ok::<Felt, SyscallHandlerError>(felts@[i]));
                }
                assert forall|i: int| 0 <= i < length implies (#[trigger] felt_of_cell(
                    integer_cell(*vm, start, i),
                )) != Err::<Felt, SyscallHandlerError>(SyscallHandlerError::IntegerOverflow) by {
                    assert(felt_of_cell(integer_cell(*vm, start, i)) == Ok::<Felt, SyscallHandlerError>(
                        felts@[i],
                    ));
                }
                assert(felts@ =~= Seq::new(
                    length as nat,
                    |i: int| felt_of_cell(integer_cell(*vm, start, i)).unwrap(),
                ));
            },
            Err(_) => {
                let i = choose|i: int|
                    0 <= i < found@.len() && felt_of_big_int((#[trigger] found@[i]).value()).is_err();
                assert(integer_cell(*vm, start, i) == Some(found@[i].bytes@));
                assert(felt_of_cell(integer_cell(*vm, start, i)) == Err::<Felt, SyscallHandlerError>(
                    SyscallHandlerError::IntegerOverflow,
                ));
            },
        }
    }
    r
}

/// Reads the arguments of a request of the given kind that starts at `base`.
pub fn read_arguments(vm: &VirtualMachine, base: &Relocatable, kind: SyscallKind) -> (r: Result<
    SyscallRequest,
    SyscallHandlerError,
>)
    requires
        arguments_readable(*vm, *base, kind),
    ensures
        match r {
            Ok(request) => arguments_at(*vm, *base, kind) == Ok::<SyscallRequestView, SyscallHandlerError>(
                request@,
            ),
            Err(e) => arguments_at(*vm, *base, kind) == Err::<SyscallRequestView, SyscallHandlerError>(e),
        },
{
    match kind {
        SyscallKind::StorageRead => {
            let key = read_felt(vm, base, 2)?;
            Ok(SyscallRequest::StorageRead { key })
        },
        SyscallKind::StorageWrite => {
            let key = read_felt(vm, base, 2)?;
            let value = read_felt(vm, base, 3)?;
            Ok(SyscallRequest::StorageWrite { key, value })
        },
        SyscallKind::CallContract => {
            let address = read_felt(vm, base, 2)?;
            let entry_point_selector = read_felt(vm, base, 3)?;
            let calldata = read_array(vm, base, 4)?;
            Ok(
                SyscallRequest::CallContract {
                    contract_address: Address(address),
                    entry_point_selector,
                    calldata,
                },
            )
        },
        SyscallKind::LibraryCall => {
            let class_hash = read_felt(vm, base, 2)?;
            let entry_point_selector = read_felt(vm, base, 3)?;
            let calldata = read_array(vm, base, 4)?;
            Ok(SyscallRequest::LibraryCall { class_hash, entry_point_selector, calldata })
        },
        SyscallKind::Deploy => {
            let class_hash = read_felt(vm, base, 2)?;
            let contract_address_salt = read_felt(vm, base, 3)?;
            let constructor_calldata = read_array(vm, base, 4)?;
            Ok(SyscallRequest::Deploy { class_hash, contract_address_salt, constructor_calldata })
        },
        SyscallKind::EmitEvent => {
            let keys = read_array(vm, base, 2)?;
            let data = read_array(vm, base, 4)?;
            Ok(SyscallRequest::EmitEvent { keys, data })
        },
        SyscallKind::GetCallerAddress => Ok(SyscallRequest::GetCallerAddress),
    }
}

/// Reads the request that starts at `syscall_ptr`, with the gas that the
/// contract has left.
pub fn read_request(vm: &VirtualMachine, syscall_ptr: &Relocatable) -> (r: Result<
    (SyscallRequest, u64),
    SyscallHandlerError,
>)
    requires
        request_readable(*vm, *syscall_ptr),
    ensures
        match r {
            Ok((request, gas)) => request_at(*vm, *syscall_ptr) == Ok::<
                (SyscallRequestView, u64),
                SyscallHandlerError,
            >((request@, gas)),
            Err(e) => request_at(*vm, *syscall_ptr) == Err::<(SyscallRequestView, u64), SyscallHandlerError>(
                e,
            ),
        },
{
    let selector = read_felt(vm, syscall_ptr, 0)?;
    let kind = syscall_kind(&selector)?;
    let gas = read_gas(vm, syscall_ptr)?;
    let request = read_arguments(vm, syscall_ptr, kind)?;
    Ok((request, gas))
}

} // verus!
