use cairo_felt::Felt as VmFelt;
use cairo_vm::types::relocatable::Relocatable as VmRelocatable;
use cairo_vm::vm::vm_core::VirtualMachine;
use num_bigint::BigUint;
use num_traits::{Num, ToPrimitive};
use starknet_rs::definitions::constants::{
    CALL_CONTRACT_SELECTOR, CONSTRUCTOR_ENTRY_POINT_SELECTOR, DEPLOY_SELECTOR, EMIT_EVENT_SELECTOR,
    EXECUTE_ENTRY_POINT_SELECTOR, GET_CALLER_ADDRESS_SELECTOR, LIBRARY_CALL_SELECTOR,
    STORAGE_READ_SELECTOR, STORAGE_WRITE_SELECTOR, VALIDATE_DECLARE_ENTRY_POINT_SELECTOR,
    VALIDATE_DEPLOY_ENTRY_POINT_SELECTOR, VALIDATE_ENTRY_POINT_SELECTOR,
};
use starknet_rs::errors::SyscallHandlerError;
use starknet_rs::felt::{Address, BigInt, Felt};
use starknet_rs::syscalls::syscall_request::{
    read_arguments, read_array, read_felt, read_gas, read_index, read_pointer, read_request,
    syscall_kind,
    SyscallRequest,
};
use starknet_rs::execution::objects::SyscallKind;
use starknet_rs::utils::{
    bigint_to_felt, bigint_to_usize, bigints_to_felts, felt_to_hash, get_big_int, get_integer,
    get_integer_range,
    get_relocatable, offset_by, Relocatable,
};

fn vm_with_segments(n: usize) -> VirtualMachine {
    let mut vm = VirtualMachine::new(false);
    for _ in 0..n {
        vm.add_memory_segment();
    }
    vm
}

fn at(segment_index: isize, offset: usize) -> Relocatable {
    Relocatable { segment_index, offset }
}

fn put_int(vm: &mut VirtualMachine, segment: isize, offset: usize, value: u128) {
    vm.insert_value(&VmRelocatable::from((segment, offset)), VmFelt::new(value)).unwrap();
}

fn put_big(vm: &mut VirtualMachine, segment: isize, offset: usize, decimal: &str) {
    let value = VmFelt::parse_bytes(decimal.as_bytes(), 10).unwrap();
    vm.insert_value(&VmRelocatable::from((segment, offset)), value).unwrap();
}

fn put_ptr(vm: &mut VirtualMachine, segment: isize, offset: usize, target: (isize, usize)) {
    vm.insert_value(&VmRelocatable::from((segment, offset)), VmRelocatable::from(target)).unwrap();
}

fn felt_from_decimal(decimal: &str) -> Felt {
    let n = BigUint::from_str_radix(decimal, 10).unwrap();
    let modulus: BigUint = BigUint::from(1u8) << 128usize;
    let low_part: BigUint = &n % &modulus;
    let high_part: BigUint = &n >> 128usize;
    let low = low_part.to_u128().unwrap();
    let high = high_part.to_u128().unwrap();
    Felt { hi: high, lo: low }
}

fn big(decimal: &str) -> BigInt {
    BigInt::from_bytes_be(BigUint::from_str_radix(decimal, 10).unwrap().to_bytes_be())
}

const BIG: &str = "1192211877881866289306604115402199097887041303917861778777990838480655617515";

#[test]
fn get_integer_reads_an_index() {
    let mut vm = vm_with_segments(2);
    put_int(&mut vm, 1, 0, 23);
    assert_eq!(get_integer(&vm, &at(1, 0)), Ok(23));
}

#[test]
fn get_integer_of_unmapped_cell_is_a_segmentation_fault() {
    let mut vm = vm_with_segments(2);
    put_int(&mut vm, 1, 1, 23);
    assert_eq!(get_integer(&vm, &at(1, 0)), Err(SyscallHandlerError::SegmentationFault));
    assert_eq!(get_integer(&vm, &at(1, 2)), Err(SyscallHandlerError::SegmentationFault));
    assert_eq!(get_integer(&vm, &at(5, 0)), Err(SyscallHandlerError::SegmentationFault));
    assert_eq!(get_integer(&vm, &at(-1, 0)), Err(SyscallHandlerError::SegmentationFault));
}

#[test]
fn get_integer_of_pointer_cell_is_a_segmentation_fault() {
    let mut vm = vm_with_segments(2);
    put_ptr(&mut vm, 1, 0, (0, 4));
    assert_eq!(get_integer(&vm, &at(1, 0)), Err(SyscallHandlerError::SegmentationFault));
    assert_eq!(get_big_int(&vm, &at(1, 0)), Err(SyscallHandlerError::SegmentationFault));
}

#[test]
fn get_integer_of_large_value_is_an_overflow() {
    let mut vm = vm_with_segments(2);
    put_big(&mut vm, 1, 0, BIG);
    assert_eq!(get_integer(&vm, &at(1, 0)), Err(SyscallHandlerError::IntegerOverflow));
    put_int(&mut vm, 1, 1, usize::MAX as u128);
    assert_eq!(get_integer(&vm, &at(1, 1)), Ok(usize::MAX));
    put_int(&mut vm, 1, 2, usize::MAX as u128 + 1);
    assert_eq!(get_integer(&vm, &at(1, 2)), Err(SyscallHandlerError::IntegerOverflow));
}

#[test]
fn get_big_int_reads_the_whole_value() {
    let mut vm = vm_with_segments(2);
    put_big(&mut vm, 1, 0, BIG);
    put_int(&mut vm, 1, 1, 0);
    put_int(&mut vm, 1, 2, u128::MAX);
    assert_eq!(get_big_int(&vm, &at(1, 0)), Ok(big(BIG)));
    assert_eq!(get_big_int(&vm, &at(1, 0)).unwrap().to_felt(), Some(felt_from_decimal(BIG)));
    assert_eq!(get_big_int(&vm, &at(1, 1)), Ok(big("0")));
    assert_eq!(get_big_int(&vm, &at(1, 2)), Ok(big("340282366920938463463374607431768211455")));
    assert_eq!(get_big_int(&vm, &at(1, 3)), Err(SyscallHandlerError::SegmentationFault));
}

#[test]
fn get_relocatable_reads_a_pointer() {
    let mut vm = vm_with_segments(3);
    put_ptr(&mut vm, 1, 0, (2, 5));
    put_int(&mut vm, 1, 1, 3);
    assert_eq!(get_relocatable(&vm, &at(1, 0)), Ok(at(2, 5)));
    assert_eq!(get_relocatable(&vm, &at(1, 1)), Err(SyscallHandlerError::SegmentationFault));
    assert_eq!(get_relocatable(&vm, &at(1, 2)), Err(SyscallHandlerError::SegmentationFault));
}

#[test]
fn get_integer_range_reads_consecutive_cells() {
    let mut vm = vm_with_segments(2);
    put_int(&mut vm, 1, 0, 1);
    put_int(&mut vm, 1, 1, 2);
    put_big(&mut vm, 1, 2, BIG);
    put_ptr(&mut vm, 1, 3, (0, 0));
    assert_eq!(
        get_integer_range(&vm, &at(1, 0), 3),
        Ok(vec![big("1"), big("2"), big(BIG)])
    );
    assert_eq!(get_integer_range(&vm, &at(1, 1), 1), Ok(vec![big("2")]));
    assert_eq!(
        bigints_to_felts(&get_integer_range(&vm, &at(1, 0), 3).unwrap()),
        Ok(vec![Felt::from_u64(1), Felt::from_u64(2), felt_from_decimal(BIG)])
    );
    assert_eq!(get_integer_range(&vm, &at(1, 0), 0), Ok(vec![]));
    assert_eq!(get_integer_range(&vm, &at(1, 9), 0), Ok(vec![]));
    assert_eq!(
        get_integer_range(&vm, &at(1, 0), 4),
        Err(SyscallHandlerError::SegmentationFault)
    );
    assert_eq!(
        get_integer_range(&vm, &at(1, 4), 1),
        Err(SyscallHandlerError::SegmentationFault)
    );
}

#[test]
fn get_integer_range_past_the_address_space_is_a_segmentation_fault() {
    let mut vm = vm_with_segments(2);
    put_int(&mut vm, 1, 0, 1);
    assert_eq!(
        get_integer_range(&vm, &at(1, usize::MAX), 2),
        Err(SyscallHandlerError::SegmentationFault)
    );
    assert_eq!(
        get_integer_range(&vm, &at(1, 1), usize::MAX),
        Err(SyscallHandlerError::SegmentationFault)
    );
    assert_eq!(
        get_integer_range(&vm, &at(1, usize::MAX), 1),
        Err(SyscallHandlerError::SegmentationFault)
    );
}

#[test]
fn bigint_to_usize_accepts_what_fits() {
    assert_eq!(bigint_to_usize(&big("0")), Ok(0));
    assert_eq!(bigint_to_usize(&big("1234")), Ok(1234));
    assert_eq!(bigint_to_usize(&big(&usize::MAX.to_string())), Ok(usize::MAX));
    assert_eq!(
        bigint_to_usize(&big(&(usize::MAX as u128 + 1).to_string())),
        Err(SyscallHandlerError::IntegerOverflow)
    );
    assert_eq!(
        bigint_to_usize(&big("340282366920938463463374607431768211456")),
        Err(SyscallHandlerError::IntegerOverflow)
    );
    let n = BigUint::from(1234u32);
    assert_eq!(bigint_to_usize(&big("1234")).ok(), n.to_usize());
}

#[test]
fn negative_integers_fit_no_index_and_no_value() {
    let minus_one = BigInt::from_signed_bytes_be(true, vec![1]);
    assert_eq!(bigint_to_usize(&minus_one), Err(SyscallHandlerError::IntegerOverflow));
    assert_eq!(bigint_to_felt(&minus_one), Err(SyscallHandlerError::IntegerOverflow));
    assert_eq!(minus_one.to_felt(), None);
    assert_eq!(num_bigint::BigInt::from(-1).to_usize(), None);
    let minus_many = BigInt::from_signed_bytes_be(true, vec![1, 0, 0, 0, 0, 0, 0, 0, 0]);
    assert_eq!(bigint_to_usize(&minus_many), Err(SyscallHandlerError::IntegerOverflow));
    let minus_zero = BigInt::from_signed_bytes_be(true, vec![0, 0]);
    assert_eq!(bigint_to_usize(&minus_zero), Ok(0));
    assert_eq!(bigint_to_felt(&minus_zero), Ok(Felt::zero()));
    let plus_one = BigInt::from_signed_bytes_be(false, vec![1]);
    assert_eq!(bigint_to_usize(&plus_one), Ok(1));
    assert_eq!(plus_one, BigInt::from_bytes_be(vec![1]));
    assert_eq!(
        bigints_to_felts(&vec![plus_one, minus_one]),
        Err(SyscallHandlerError::IntegerOverflow)
    );
}

#[test]
fn bytes_and_values_agree_with_big_integers() {
    for decimal in ["0", "1", "255", "256", "340282366920938463463374607431768211455",
        "340282366920938463463374607431768211456", BIG] {
        let n = BigUint::from_str_radix(decimal, 10).unwrap();
        let felt = felt_from_decimal(decimal);
        assert_eq!(Felt::from_bytes_be(&n.to_bytes_be()), Some(felt));
        assert_eq!(bigint_to_felt(&BigInt::from_bytes_be(n.to_bytes_be())), Ok(felt));
        let hash = felt_to_hash(&felt);
        assert_eq!(BigUint::from_bytes_be(&hash), n);
        assert_eq!(felt.to_bytes_be(), hash);
        assert_eq!(Felt::from_hash(&hash), felt);
        assert_eq!(VmFelt::from_bytes_be(&hash).to_biguint(), n);
    }
    let mut padded = vec![0u8; 40];
    padded[39] = 7;
    assert_eq!(Felt::from_bytes_be(&padded), Some(Felt::from_u64(7)));
    let mut too_long = vec![0u8; 33];
    too_long[0] = 1;
    assert_eq!(Felt::from_bytes_be(&too_long), None);
    assert_eq!(
        bigint_to_felt(&BigInt::from_bytes_be(too_long.clone())),
        Err(SyscallHandlerError::IntegerOverflow)
    );
    assert_eq!(
        bigint_to_usize(&BigInt::from_bytes_be(too_long.clone())),
        Err(SyscallHandlerError::IntegerOverflow)
    );
    assert_eq!(
        bigints_to_felts(&vec![big("1"), BigInt::from_bytes_be(too_long)]),
        Err(SyscallHandlerError::IntegerOverflow)
    );
    assert_eq!(Felt::from_bytes_be(&vec![0xff; 32]), Some(Felt { hi: u128::MAX, lo: u128::MAX }));
    assert_eq!(Felt::from_bytes_be(&vec![]), Some(Felt::zero()));
    assert_eq!(felt_to_hash(&Felt::from_u64(0x0102)), {
        let mut h = [0u8; 32];
        h[30] = 1;
        h[31] = 2;
        h
    });
}

#[test]
fn felt_basics() {
    assert!(Felt::zero().is_zero());
    assert!(!Felt::from_u64(1).is_zero());
    assert_eq!(Felt::from_u64(9).to_usize(), Some(9));
    assert_eq!(Felt { hi: 3, lo: 0 }.to_usize(), None);
    assert_eq!(Felt::from_u64(9).successor(), Felt::from_u64(10));
    assert_eq!(Felt { hi: 0, lo: u128::MAX }.successor(), Felt { hi: 1, lo: 0 });
    assert_eq!(Felt { hi: u128::MAX, lo: u128::MAX }.successor(), Felt::zero());
}

#[test]
fn offset_by_stays_within_the_address_space() {
    assert_eq!(offset_by(&at(2, 5), 3), Some(at(2, 8)));
    assert_eq!(offset_by(&at(2, usize::MAX), 0), Some(at(2, usize::MAX)));
    assert_eq!(offset_by(&at(2, usize::MAX), 1), None);
    assert_eq!(offset_by(&at(-1, 1), usize::MAX), None);
}

fn selector(name: &str) -> u128 {
    let mut n: u128 = 0;
    for b in name.bytes() {
        n = n * 256 + b as u128;
    }
    n
}

#[test]
fn selectors_are_the_names_as_numbers() {
    assert_eq!(STORAGE_READ_SELECTOR, selector("StorageRead"));
    assert_eq!(STORAGE_WRITE_SELECTOR, selector("StorageWrite"));
    assert_eq!(CALL_CONTRACT_SELECTOR, selector("CallContract"));
    assert_eq!(LIBRARY_CALL_SELECTOR, selector("LibraryCall"));
    assert_eq!(DEPLOY_SELECTOR, selector("Deploy"));
    assert_eq!(EMIT_EVENT_SELECTOR, selector("EmitEvent"));
    assert_eq!(GET_CALLER_ADDRESS_SELECTOR, selector("GetCallerAddress"));
    assert_eq!(VALIDATE_ENTRY_POINT_SELECTOR, selector("validate"));
    assert_eq!(VALIDATE_DECLARE_ENTRY_POINT_SELECTOR, selector("validate_declare"));
    assert_eq!(VALIDATE_DEPLOY_ENTRY_POINT_SELECTOR, selector("validate_deploy"));
    assert_eq!(EXECUTE_ENTRY_POINT_SELECTOR, selector("execute"));
    assert_eq!(CONSTRUCTOR_ENTRY_POINT_SELECTOR, selector("constructor"));
}

#[test]
fn syscall_kind_knows_the_selectors() {
    assert_eq!(syscall_kind(&Felt::from_u128(selector("StorageRead"))), Ok(SyscallKind::StorageRead));
    assert_eq!(syscall_kind(&Felt::from_u128(selector("StorageWrite"))), Ok(SyscallKind::StorageWrite));
    assert_eq!(syscall_kind(&Felt::from_u128(selector("CallContract"))), Ok(SyscallKind::CallContract));
    assert_eq!(syscall_kind(&Felt::from_u128(selector("LibraryCall"))), Ok(SyscallKind::LibraryCall));
    assert_eq!(syscall_kind(&Felt::from_u128(selector("EmitEvent"))), Ok(SyscallKind::EmitEvent));
    assert_eq!(
        syscall_kind(&Felt::from_u128(selector("GetCallerAddress"))),
        Ok(SyscallKind::GetCallerAddress)
    );
    assert_eq!(syscall_kind(&Felt::from_u64(0)), Err(SyscallHandlerError::UnknownSyscall));
    assert_eq!(
        syscall_kind(&Felt { hi: 1, lo: selector("StorageRead") }),
        Err(SyscallHandlerError::UnknownSyscall)
    );
    assert_eq!(syscall_kind(&Felt::from_u128(selector("Deploy"))), Ok(SyscallKind::Deploy));
    assert_eq!(
        syscall_kind(&Felt::from_u128(selector("deploy"))),
        Err(SyscallHandlerError::UnknownSyscall)
    );
}

#[test]
fn read_request_decodes_a_storage_read() {
    let mut vm = vm_with_segments(2);
    put_int(&mut vm, 1, 0, selector("StorageRead"));
    put_int(&mut vm, 1, 1, 1000);
    put_int(&mut vm, 1, 2, 77);
    assert_eq!(
        read_request(&vm, &at(1, 0)),
        Ok((SyscallRequest::StorageRead { key: Felt::from_u64(77) }, 1000))
    );
}

#[test]
fn read_request_decodes_a_storage_write() {
    let mut vm = vm_with_segments(2);
    put_int(&mut vm, 1, 3, selector("StorageWrite"));
    put_int(&mut vm, 1, 4, 600);
    put_int(&mut vm, 1, 5, 77);
    put_big(&mut vm, 1, 6, BIG);
    assert_eq!(
        read_request(&vm, &at(1, 3)),
        Ok((
            SyscallRequest::StorageWrite { key: Felt::from_u64(77), value: felt_from_decimal(BIG) },
            600
        ))
    );
}

#[test]
fn read_request_decodes_a_call_with_its_calldata() {
    let mut vm = vm_with_segments(3);
    put_int(&mut vm, 1, 0, selector("CallContract"));
    put_int(&mut vm, 1, 1, 5000);
    put_int(&mut vm, 1, 2, 256);
    put_int(&mut vm, 1, 3, 42);
    put_int(&mut vm, 1, 4, 2);
    put_ptr(&mut vm, 1, 5, (2, 1));
    put_int(&mut vm, 2, 1, 10);
    put_int(&mut vm, 2, 2, 20);
    assert_eq!(
        read_request(&vm, &at(1, 0)),
        Ok((
            SyscallRequest::CallContract {
                contract_address: Address(Felt::from_u64(256)),
                entry_point_selector: Felt::from_u64(42),
                calldata: vec![Felt::from_u64(10), Felt::from_u64(20)],
            },
            5000
        ))
    );
}

#[test]
fn read_request_decodes_a_library_call_an_event_and_the_caller_request() {
    let mut vm = vm_with_segments(3);
    put_int(&mut vm, 1, 0, selector("LibraryCall"));
    put_int(&mut vm, 1, 1, 5000);
    put_int(&mut vm, 1, 2, 272);
    put_int(&mut vm, 1, 3, 42);
    put_int(&mut vm, 1, 4, 0);
    put_ptr(&mut vm, 1, 5, (2, 0));
    assert_eq!(
        read_request(&vm, &at(1, 0)),
        Ok((
            SyscallRequest::LibraryCall {
                class_hash: Felt::from_u64(272),
                entry_point_selector: Felt::from_u64(42),
                calldata: vec![],
            },
            5000
        ))
    );
    put_int(&mut vm, 1, 10, selector("EmitEvent"));
    put_int(&mut vm, 1, 11, 400);
    put_int(&mut vm, 1, 12, 1);
    put_ptr(&mut vm, 1, 13, (2, 0));
    put_int(&mut vm, 1, 14, 2);
    put_ptr(&mut vm, 1, 15, (2, 1));
    put_int(&mut vm, 2, 0, 5);
    put_int(&mut vm, 2, 1, 6);
    put_int(&mut vm, 2, 2, 7);
    assert_eq!(
        read_request(&vm, &at(1, 10)),
        Ok((
            SyscallRequest::EmitEvent {
                keys: vec![Felt::from_u64(5)],
                data: vec![Felt::from_u64(6), Felt::from_u64(7)],
            },
            400
        ))
    );
    put_int(&mut vm, 1, 20, selector("GetCallerAddress"));
    put_int(&mut vm, 1, 21, 50);
    assert_eq!(read_request(&vm, &at(1, 20)), Ok((SyscallRequest::GetCallerAddress, 50)));
}

#[test]
fn read_request_decodes_a_deployment() {
    let mut vm = vm_with_segments(3);
    put_int(&mut vm, 1, 0, selector("Deploy"));
    put_int(&mut vm, 1, 1, 9000);
    put_int(&mut vm, 1, 2, 273);
    put_int(&mut vm, 1, 3, 5);
    put_int(&mut vm, 1, 4, 1);
    put_ptr(&mut vm, 1, 5, (2, 3));
    put_int(&mut vm, 2, 3, 44);
    assert_eq!(
        read_request(&vm, &at(1, 0)),
        Ok((
            SyscallRequest::Deploy {
                class_hash: Felt::from_u64(273),
                contract_address_salt: Felt::from_u64(5),
                constructor_calldata: vec![Felt::from_u64(44)],
            },
            9000
        ))
    );
}

#[test]
fn read_request_reports_the_first_fault() {
    let mut vm = vm_with_segments(3);
    assert_eq!(read_request(&vm, &at(1, 0)), Err(SyscallHandlerError::SegmentationFault));
    put_int(&mut vm, 1, 0, 12345);
    assert_eq!(read_request(&vm, &at(1, 0)), Err(SyscallHandlerError::UnknownSyscall));

    put_int(&mut vm, 1, 10, selector("StorageRead"));
    assert_eq!(read_request(&vm, &at(1, 10)), Err(SyscallHandlerError::SegmentationFault));
    put_big(&mut vm, 1, 11, BIG);
    assert_eq!(read_request(&vm, &at(1, 10)), Err(SyscallHandlerError::IntegerOverflow));

    put_int(&mut vm, 1, 20, selector("CallContract"));
    put_int(&mut vm, 1, 21, 5000);
    put_int(&mut vm, 1, 22, 256);
    put_int(&mut vm, 1, 23, 42);
    put_int(&mut vm, 1, 24, 2);
    put_int(&mut vm, 1, 25, 9);
    assert_eq!(read_request(&vm, &at(1, 20)), Err(SyscallHandlerError::SegmentationFault));

    put_int(&mut vm, 1, 30, selector("CallContract"));
    put_int(&mut vm, 1, 31, 5000);
    put_int(&mut vm, 1, 32, 256);
    put_int(&mut vm, 1, 33, 42);
    put_int(&mut vm, 1, 34, 2);
    put_ptr(&mut vm, 1, 35, (2, 0));
    put_int(&mut vm, 2, 0, 1);
    assert_eq!(read_request(&vm, &at(1, 30)), Err(SyscallHandlerError::SegmentationFault));

    assert_eq!(read_request(&vm, &at(1, usize::MAX)), Err(SyscallHandlerError::SegmentationFault));
}

#[test]
fn gas_must_fit_64_bits() {
    let mut vm = vm_with_segments(2);
    put_int(&mut vm, 1, 0, selector("GetCallerAddress"));
    put_int(&mut vm, 1, 1, u64::MAX as u128);
    assert_eq!(read_request(&vm, &at(1, 0)), Ok((SyscallRequest::GetCallerAddress, u64::MAX)));
    assert_eq!(read_gas(&vm, &at(1, 0)), Ok(u64::MAX));
    put_int(&mut vm, 1, 10, selector("GetCallerAddress"));
    put_int(&mut vm, 1, 11, u64::MAX as u128 + 1);
    assert_eq!(read_request(&vm, &at(1, 10)), Err(SyscallHandlerError::IntegerOverflow));
    assert_eq!(Felt::from_u128(u64::MAX as u128).to_u64(), Some(u64::MAX));
    assert_eq!(Felt::from_u128(u64::MAX as u128 + 1).to_u64(), None);
}

#[test]
fn read_helpers_read_relative_to_a_base() {
    let mut vm = vm_with_segments(3);
    put_int(&mut vm, 1, 2, 4);
    put_ptr(&mut vm, 1, 3, (2, 0));
    put_int(&mut vm, 2, 0, 1);
    put_int(&mut vm, 2, 1, 2);
    put_int(&mut vm, 2, 2, 3);
    put_int(&mut vm, 2, 3, 4);
    assert_eq!(read_felt(&vm, &at(1, 0), 2), Ok(Felt::from_u64(4)));
    assert_eq!(read_index(&vm, &at(1, 1), 1), Ok(4));
    assert_eq!(read_pointer(&vm, &at(1, 0), 3), Ok(at(2, 0)));
    assert_eq!(read_felt(&vm, &at(1, usize::MAX), 1), Err(SyscallHandlerError::SegmentationFault));
    assert_eq!(
        read_array(&vm, &at(1, 0), 2),
        Ok(vec![Felt::from_u64(1), Felt::from_u64(2), Felt::from_u64(3), Felt::from_u64(4)])
    );
    assert_eq!(
        read_arguments(&vm, &at(1, 0), SyscallKind::StorageRead),
        Ok(SyscallRequest::StorageRead { key: Felt::from_u64(4) })
    );
    assert_eq!(
        read_arguments(&vm, &at(1, 0), SyscallKind::GetCallerAddress),
        Ok(SyscallRequest::GetCallerAddress)
    );
    assert_eq!(get_integer(&vm, &at(1, 2)), Ok(4));
}
