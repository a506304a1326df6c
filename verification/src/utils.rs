//! Reading typed values out of the memory of a virtual machine.
//!
//! The machine relocates a pointer into a temporary segment when it reads
//! it, and adds the offsets without a check.  The functions here ask that
//! this addition stays in range for the cells that they read
//! ([`readable`]); a read of another cell may not return.

use crate::errors::SyscallHandlerError;
use crate::felt::{be_value, copy_bytes, felt_hash, pow2_128, pow2_256, BigInt, Felt};
use cairo_vm::vm::vm_core::VirtualMachine;
use vstd::prelude::*;

verus! {

/// `cairo_vm::vm::vm_core::VirtualMachine`, the virtual machine whose memory
/// the requests are read from.  Nothing of its inside is known here.
#[verifier::external_type_specification]
#[verifier::external_body]
pub struct ExVirtualMachine(VirtualMachine);

/// An address in the memory of the virtual machine: a segment and an offset
/// within it.
#[derive(Clone, Copy, Debug, PartialEq, Eq, Hash, Structural)]
pub struct Relocatable {
    pub segment_index: isize,
    pub offset: usize,
}

/// What a cell of the machine's memory holds, as a read of it shows.
pub enum MemoryCell {
    /// An integer, as bytes with the most significant first.
    Integer(Seq<u8>),
    /// A pointer, after the relocation rules of the machine have been applied.
    Pointer(Relocatable),
    /// A pointer into a temporary segment whose relocation leaves the range
    /// of offsets: the machine adds the offsets without a check, so a read
    /// of such a cell cannot be relied on to return.
    Overflowing,
}

/// The memory of the machine, as `VirtualMachine::get_integer` and
/// `VirtualMachine::get_relocatable` show it: what each mapped address
/// holds.  An address that is not in the map holds nothing.
pub uninterp spec fn vm_memory(vm: VirtualMachine) -> Map<Relocatable, MemoryCell>;

/// The cell at `ptr` can be read: it is not a pointer whose relocation
/// overflows.
pub open spec fn readable(vm: VirtualMachine, ptr: Relocatable) -> bool {
    !(vm_memory(vm).contains_key(ptr) && vm_memory(vm)[ptr] is Overflowing)
}

/// The integer at `ptr`, as bytes, if the cell holds one.
pub open spec fn vm_integer_at(vm: VirtualMachine, ptr: Relocatable) -> Option<Seq<u8>> {
    if vm_memory(vm).contains_key(ptr) {
        match vm_memory(vm)[ptr] {
            MemoryCell::Integer(bytes) => Some(bytes),
            _ => None,
        }
    } else {
        None
    }
}

/// The pointer at `ptr`, if the cell holds one.
pub open spec fn vm_relocatable_at(vm: VirtualMachine, ptr: Relocatable) -> Option<Relocatable> {
    if vm_memory(vm).contains_key(ptr) {
        match vm_memory(vm)[ptr] {
            MemoryCell::Pointer(found) => Some(found),
            _ => None,
        }
    } else {
        None
    }
}

/// The address `k` cells after `base`, if there is one in the address space.
pub open spec fn cell_address(base: Relocatable, k: int) -> Option<Relocatable> {
    if 0 <= k && base.offset + k <= usize::MAX {
        Some(Relocatable { segment_index: base.segment_index, offset: (base.offset + k) as usize })
    } else {
        None
    }
}

/// The integer stored `k` cells after `base`, as bytes; a cell past the
/// address space holds nothing.
pub open spec fn integer_cell(vm: VirtualMachine, base: Relocatable, k: int) -> Option<Seq<u8>> {
    match cell_address(base, k) {
        Some(ptr) => vm_integer_at(vm, ptr),
        None => None,
    }
}

/// The 256-bit value that stands for the number `n`.
pub open spec fn felt_of_value(n: nat) -> Felt {
    Felt { hi: (n / pow2_128()) as u128, lo: (n % pow2_128()) as u128 }
}

/// What reading a value of 256 bits from a cell yields: a cell without an
/// integer is a segmentation fault, an integer beyond 256 bits an overflow.
pub open spec fn felt_of_cell(cell: Option<Seq<u8>>) -> Result<Felt, SyscallHandlerError> {
    match cell {
        None => Err(SyscallHandlerError::SegmentationFault),
        Some(bytes) => if be_value(bytes) < pow2_256() {
            Ok(felt_of_value(be_value(bytes)))
        } else {
            Err(SyscallHandlerError::IntegerOverflow)
        },
    }
}

/// What reading an index from a cell yields: a cell without an integer is a
/// segmentation fault, an integer beyond the range of indices an overflow.
pub open spec fn index_of_cell(cell: Option<Seq<u8>>) -> Result<usize, SyscallHandlerError> {
    match cell {
        None => Err(SyscallHandlerError::SegmentationFault),
        Some(bytes) => if be_value(bytes) <= usize::MAX {
            Ok(be_value(bytes) as usize)
        } else {
            Err(SyscallHandlerError::IntegerOverflow)
        },
    }
}

/// What reading a pointer from a cell yields.
pub open spec fn pointer_of_cell(cell: Option<Relocatable>) -> Result<Relocatable, SyscallHandlerError> {
    match cell {
        None => Err(SyscallHandlerError::SegmentationFault),
        Some(found) => Ok(found),
    }
}

/// Some cell of the `size` cells from `base` on holds no integer.
pub open spec fn range_unmapped(vm: VirtualMachine, base: Relocatable, size: int) -> bool {
    exists|i: int| 0 <= i < size && (#[trigger] integer_cell(vm, base, i)).is_none()
}

/// Some cell of the `size` cells from `base` on holds an integer beyond 256 bits.
pub open spec fn range_overflows(vm: VirtualMachine, base: Relocatable, size: int) -> bool {
    exists|i: int|
        0 <= i < size && (#[trigger] felt_of_cell(integer_cell(vm, base, i))) == Err::<
            Felt,
            SyscallHandlerError,
        >(SyscallHandlerError::IntegerOverflow)
}

/// What reading `size` values of 256 bits from `base` on yields: a cell
/// without an integer is a segmentation fault; failing that, an integer
/// beyond 256 bits is an overflow.
pub open spec fn felts_of_range(vm: VirtualMachine, base: Relocatable, size: int) -> Result<
    Seq<Felt>,
    SyscallHandlerError,
> {
    if range_unmapped(vm, base, size) {
        Err(SyscallHandlerError::SegmentationFault)
    } else if range_overflows(vm, base, size) {
        Err(SyscallHandlerError::IntegerOverflow)
    } else {
        Ok(Seq::new(size as nat, |i: int| felt_of_cell(integer_cell(vm, base, i)).unwrap()))
    }
}

/// Calls `VirtualMachine::get_integer` and hands out the bytes of the integer
/// found, most significant first (`Felt::to_bytes_be`); `None` stands for
/// every error of the call.  The claim: the call succeeds exactly where the
/// memory holds an integer at the address, and hands out that integer.
#[verifier::external_body]
fn vm_get_integer(vm: &VirtualMachine, ptr: &Relocatable) -> (r: Option<Vec<u8>>)
    requires
        readable(*vm, *ptr),
    ensures
        match r {
            Some(bytes) => vm_memory(*vm).contains_key(*ptr) && vm_memory(*vm)[*ptr] == MemoryCell::Integer(
                bytes@,
            ),
            None => !vm_memory(*vm).contains_key(*ptr) || !(vm_memory(*vm)[*ptr] is Integer),
        },
{
    let key = cairo_vm::types::relocatable::Relocatable {
        segment_index: ptr.segment_index,
        offset: ptr.offset,
    };
    match vm.get_integer(&key) {
        Ok(value) => Some(value.to_bytes_be()),
        Err(_) => None,
    }
}

/// Calls `VirtualMachine::get_relocatable`; `None` stands for every error of
/// the call.  The claim: the call succeeds exactly where the memory holds a
/// pointer at the address, and hands out that pointer.
#[verifier::external_body]
fn vm_get_relocatable(vm: &VirtualMachine, ptr: &Relocatable) -> (r: Option<Relocatable>)
    requires
        readable(*vm, *ptr),
    ensures
        match r {
            Some(found) => vm_memory(*vm).contains_key(*ptr) && vm_memory(*vm)[*ptr] == MemoryCell::Pointer(
                found,
            ),
            None => !vm_memory(*vm).contains_key(*ptr) || !(vm_memory(*vm)[*ptr] is Pointer),
        },
{
    let key = cairo_vm::types::relocatable::Relocatable {
        segment_index: ptr.segment_index,
        offset: ptr.offset,
    };
    match vm.get_relocatable(&key) {
        Ok(found) => Some(Relocatable { segment_index: found.segment_index, offset: found.offset }),
        Err(_) => None,
    }
}

/// Calls `VirtualMachine::get_integer_range`, which reads `size` cells in
/// turn with `get_integer`, starting at `addr`, and stops at the first
/// error.  The claim: on success each element is the integer that the memory
/// holds in its cell, and a failure means that one of the cells holds no
/// integer.  The offsets must stay within `usize`, since the call adds them
/// without a check, and the cells that the call reaches must be readable.
#[verifier::external_body]
fn vm_get_integer_range(vm: &VirtualMachine, addr: &Relocatable, size: usize) -> (r: Option<
    Vec<Vec<u8>>,
>)
    requires
        size == 0 || addr.offset + size - 1 <= usize::MAX,
        range_readable(*vm, *addr, size as int),
    ensures
        match r {
            Some(values) => values@.len() == size && forall|i: int|
                0 <= i < size ==> integer_cell(*vm, *addr, i) == Some((#[trigger] values@[i])@),
            None => exists|i: int| 0 <= i < size && (#[trigger] integer_cell(*vm, *addr, i)).is_none(),
        },
{
    let key = cairo_vm::types::relocatable::Relocatable {
        segment_index: addr.segment_index,
        offset: addr.offset,
    };
    match vm.get_integer_range(&key, size) {
        Ok(values) => Some(values.iter().map(|value| value.to_bytes_be()).collect()),
        Err(_) => None,
    }
}

/// What an integer is as a value of 256 bits: a negative integer and one
/// beyond 256 bits are an overflow.
pub open spec fn felt_of_big_int(value: int) -> Result<Felt, SyscallHandlerError> {
    if 0 <= value < pow2_256() {
        Ok(felt_of_value(value as nat))
    } else {
        Err(SyscallHandlerError::IntegerOverflow)
    }
}

/// What an integer is as an index: a negative integer and one beyond the
/// range of indices are an overflow.
pub open spec fn index_of_big_int(value: int) -> Result<usize, SyscallHandlerError> {
    if 0 <= value <= usize::MAX {
        Ok(value as usize)
    } else {
        Err(SyscallHandlerError::IntegerOverflow)
    }
}

/// The integer as a value of 256 bits; a negative integer and one that does
/// not fit are an overflow.
pub fn bigint_to_felt(bigint: &BigInt) -> (r: Result<Felt, SyscallHandlerError>)
    ensures
        r == felt_of_big_int(bigint.value()),
        !bigint.negative ==> r == felt_of_cell(Some(bigint.bytes@)),
{
    match bigint.to_felt() {
        Some(felt) => {
            assert(felt == felt_of_value(felt.value()));
            Ok(felt)
        },
        None => Err(SyscallHandlerError::IntegerOverflow),
    }
}

/// The integer as an index; a negative integer and one too large for an
/// index are an overflow.
pub fn bigint_to_usize(bigint: &BigInt) -> (r: Result<usize, SyscallHandlerError>)
    ensures
        r == index_of_big_int(bigint.value()),
        !bigint.negative ==> r == index_of_cell(Some(bigint.bytes@)),
{
    let fits = match bigint.to_felt() {
        Some(felt) => felt.to_usize(),
        None => None,
    };
    match fits {
        Some(n) => Ok(n),
        None => Err(SyscallHandlerError::IntegerOverflow),
    }
}

/// The value as 32 bytes, most significant first.
pub fn felt_to_hash(value: &Felt) -> (r: [u8; 32])
    ensures
        be_value(r@) == value.value(),
        r == felt_hash(*value),
{
    value.to_bytes_be()
}

/// The address `k` cells after `base`, unless it lies past the address space.
pub fn offset_by(base: &Relocatable, k: usize) -> (r: Option<Relocatable>)
    ensures
        r == cell_address(*base, k as int),
{
    if k <= usize::MAX - base.offset {
        Some(Relocatable { segment_index: base.segment_index, offset: base.offset + k })
    } else {
        None
    }
}

/// The bytes of the integer that a cell holds, whatever its size.
pub open spec fn big_int_of_cell(cell: Option<Seq<u8>>) -> Result<Seq<u8>, SyscallHandlerError> {
    match cell {
        None => Err(SyscallHandlerError::SegmentationFault),
        Some(bytes) => Ok(bytes),
    }
}

/// The big integer stored at `syscall_ptr`, whatever its size.  A cell that
/// holds no integer is a segmentation fault; there is no other failure.
pub fn get_big_int(vm: &VirtualMachine, syscall_ptr: &Relocatable) -> (r: Result<
    BigInt,
    SyscallHandlerError,
>)
    requires
        readable(*vm, *syscall_ptr),
    ensures
        match r {
            Ok(found) => !found.negative && big_int_of_cell(vm_integer_at(*vm, *syscall_ptr)) == Ok::<
                Seq<u8>,
                SyscallHandlerError,
            >(found.bytes@),
            Err(e) => big_int_of_cell(vm_integer_at(*vm, *syscall_ptr)) == Err::<Seq<u8>, SyscallHandlerError>(
                e,
            ),
        },
{
    match vm_get_integer(vm, syscall_ptr) {
        Some(bytes) => Ok(BigInt::from_bytes_be(bytes)),
        None => Err(SyscallHandlerError::SegmentationFault),
    }
}

/// The index stored at `syscall_ptr`.
pub fn get_integer(vm: &VirtualMachine, syscall_ptr: &Relocatable) -> (r: Result<
    usize,
    SyscallHandlerError,
>)
    requires
        readable(*vm, *syscall_ptr),
    ensures
        r == index_of_cell(vm_integer_at(*vm, *syscall_ptr)),
{
    let found = get_big_int(vm, syscall_ptr)?;
    bigint_to_usize(&found)
}

/// The pointer stored at `syscall_ptr`.
pub fn get_relocatable(vm: &VirtualMachine, syscall_ptr: &Relocatable) -> (r: Result<
    Relocatable,
    SyscallHandlerError,
>)
    requires
        readable(*vm, *syscall_ptr),
    ensures
        r == pointer_of_cell(vm_relocatable_at(*vm, *syscall_ptr)),
{
    match vm_get_relocatable(vm, syscall_ptr) {
        Some(found) => Ok(found),
        None => Err(SyscallHandlerError::SegmentationFault),
    }
}

/// The values of 256 bits that the integers stand for, in order; the first
/// that is negative or does not fit is an overflow.
pub fn bigints_to_felts(values: &Vec<BigInt>) -> (r: Result<Vec<Felt>, SyscallHandlerError>)
    ensures
        match r {
            Ok(felts) => felts@.len() == values@.len() && (forall|i: int|
                0 <= i < values@.len() ==> felt_of_big_int(values@[i].value()) == Ok::<
                    Felt,
                    SyscallHandlerError,
                >(#[trigger] felts@[i])),
            Err(e) => e == SyscallHandlerError::IntegerOverflow && exists|i: int|
                0 <= i < values@.len() && felt_of_big_int((#[trigger] values@[i]).value()).is_err(),
        },
{
    let mut felts: Vec<Felt> = Vec::new();
    let mut i: usize = 0;
    while i < values.len()
        invariant
            i <= values@.len(),
            felts@.len() == i,
            forall|j: int|
                0 <= j < i ==> felt_of_big_int(values@[j].value()) == Ok::<Felt, SyscallHandlerError>(
                    #[trigger] felts@[j],
                ),
        decreases values@.len() - i,
    {
        match bigint_to_felt(&values[i]) {
            Ok(felt) => {
                felts.push(felt);
            },
            Err(e) => {
                return Err(e);
            },
        }
        i += 1;
    }
    Ok(felts)
}

/// The cell `k` cells after `base` can be read, if there is such a cell.
pub open spec fn cell_readable(vm: VirtualMachine, base: Relocatable, k: int) -> bool {
    match cell_address(base, k) {
        Some(ptr) => readable(vm, ptr),
        None => true,
    }
}

/// The `i` cells from `base` on all hold an integer, so that a read of the
/// range reaches the cell after them.
pub open spec fn reached(vm: VirtualMachine, base: Relocatable, i: int) -> bool {
    forall|j: int| 0 <= j < i ==> (#[trigger] integer_cell(vm, base, j)).is_some()
}

/// The cells that a read of the `size` cells from `base` on reaches can be
/// read.  The read goes cell by cell and ends at the first cell without an
/// integer.
pub open spec fn range_readable(vm: VirtualMachine, base: Relocatable, size: int) -> bool {
    forall|i: int| 0 <= i < size && reached(vm, base, i) ==> #[trigger] cell_readable(vm, base, i)
}

/// The `size` big integers stored from `addr` on, whatever their size.  A
/// cell without an integer is a segmentation fault, and so is a range that
/// leaves the address space; there is no other failure.
pub fn get_integer_range(vm: &VirtualMachine, addr: &Relocatable, size: usize) -> (r: Result<
    Vec<BigInt>,
    SyscallHandlerError,
>)
    requires
        range_readable(*vm, *addr, size as int),
    ensures
        match r {
            Ok(values) => !range_unmapped(*vm, *addr, size as int) && values@.len() == size && forall|i: int|
                0 <= i < size ==> !(#[trigger] values@[i]).negative && integer_cell(*vm, *addr, i) == Some(
                    values@[i].bytes@,
                ),
            Err(e) => e == SyscallHandlerError::SegmentationFault && range_unmapped(*vm, *addr, size as int),
        },
{
    if size > 0 && addr.offset > usize::MAX - (size - 1) {
        proof {
            let i = usize::MAX - addr.offset + 1;
            assert(integer_cell(*vm, *addr, i).is_none());
        }
        return Err(SyscallHandlerError::SegmentationFault);
    }
    match vm_get_integer_range(vm, addr, size) {
        None => Err(SyscallHandlerError::SegmentationFault),
        Some(found) => {
            proof {
                assert forall|i: int| 0 <= i < size implies (#[trigger] integer_cell(*vm, *addr, i)).is_some() by {
                    assert(integer_cell(*vm, *addr, i) == Some(found@[i]@));
                }
            }
            let mut values: Vec<BigInt> = Vec::new();
            let mut i: usize = 0;
            while i < found.len()
                invariant
                    i <= found@.len(),
                    found@.len() == size,
                    values@.len() == i,
                    forall|j: int| 0 <= j < size ==> integer_cell(*vm, *addr, j) == Some((#[trigger] found@[j])@),
                    forall|j: int|
                        0 <= j < i ==> !(#[trigger] values@[j]).negative && values@[j].bytes@ == found@[j]@,
                decreases found@.len() - i,
            {
                values.push(BigInt::from_bytes_be(copy_bytes(&found[i])));
                i += 1;
            }
            Ok(values)
        },
    }
}

} // verus!
