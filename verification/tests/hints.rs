use std::convert::TryFrom;

use iced_x86::{MemorySize, Mnemonic, OpAccess};
use mttn::decode::{Decoded, MemoryUse};
use mttn::hints::{
    capture, mask_from_str_instr, mask_of_use, operations_of, tracee_hints_stage1, MemoryAccess,
};
use mttn::trace::{MemoryMask, MemoryOp, TraceError};

fn decoded(mnemonic: Mnemonic, uses: Vec<MemoryUse>) -> Decoded {
    Decoded {
        length: 2,
        invalid: false,
        mnemonic,
        uses,
    }
}

fn used(access: OpAccess, size: MemorySize, address: Option<u64>) -> MemoryUse {
    MemoryUse {
        access,
        size,
        address,
    }
}

fn access(address: u64, operation: MemoryOp, mask: MemoryMask) -> MemoryAccess {
    MemoryAccess {
        address,
        operation,
        mask,
    }
}

#[test]
fn test_mask_from_size() {
    assert_eq!(MemoryMask::try_from(1u64), Ok(MemoryMask::Byte));
    assert_eq!(MemoryMask::try_from(2u64), Ok(MemoryMask::Word));
    assert_eq!(MemoryMask::try_from(4u64), Ok(MemoryMask::DWord));
    assert_eq!(MemoryMask::try_from(8u64), Ok(MemoryMask::QWord));
    for size in [0u64, 3, 5, 6, 7, 9, 16, u64::MAX] {
        assert_eq!(
            MemoryMask::try_from(size),
            Err(TraceError::UnsupportedSize(size))
        );
    }
    assert_eq!(MemoryMask::Byte.bytes(), 1);
    assert_eq!(MemoryMask::Word.bytes(), 2);
    assert_eq!(MemoryMask::DWord.bytes(), 4);
    assert_eq!(MemoryMask::QWord.bytes(), 8);
}

#[test]
fn test_access_kinds_fan_out() {
    assert_eq!(operations_of(OpAccess::Read), Ok(vec![MemoryOp::Read]));
    assert_eq!(operations_of(OpAccess::CondRead), Ok(vec![MemoryOp::Read]));
    assert_eq!(operations_of(OpAccess::Write), Ok(vec![MemoryOp::Write]));
    assert_eq!(operations_of(OpAccess::CondWrite), Ok(vec![MemoryOp::Write]));
    assert_eq!(
        operations_of(OpAccess::ReadWrite),
        Ok(vec![MemoryOp::Read, MemoryOp::Write])
    );
    assert_eq!(
        operations_of(OpAccess::ReadCondWrite),
        Ok(vec![MemoryOp::Read, MemoryOp::Write])
    );
    assert_eq!(
        operations_of(OpAccess::NoMemAccess),
        Err(TraceError::UnsupportedMemOp)
    );
    assert_eq!(
        operations_of(OpAccess::None),
        Err(TraceError::UnsupportedMemOp)
    );
}

#[test]
fn test_string_instruction_masks() {
    let table = [
        (Mnemonic::Lodsb, MemoryMask::Byte),
        (Mnemonic::Stosb, MemoryMask::Byte),
        (Mnemonic::Movsb, MemoryMask::Byte),
        (Mnemonic::Cmpsb, MemoryMask::Byte),
        (Mnemonic::Scasb, MemoryMask::Byte),
        (Mnemonic::Lodsw, MemoryMask::Word),
        (Mnemonic::Stosw, MemoryMask::Word),
        (Mnemonic::Movsw, MemoryMask::Word),
        (Mnemonic::Cmpsw, MemoryMask::Word),
        (Mnemonic::Scasw, MemoryMask::Word),
        (Mnemonic::Lodsd, MemoryMask::DWord),
        (Mnemonic::Stosd, MemoryMask::DWord),
        (Mnemonic::Movsd, MemoryMask::DWord),
        (Mnemonic::Cmpsd, MemoryMask::DWord),
        (Mnemonic::Scasd, MemoryMask::DWord),
        (Mnemonic::Lodsq, MemoryMask::QWord),
        (Mnemonic::Stosq, MemoryMask::QWord),
        (Mnemonic::Movsq, MemoryMask::QWord),
        (Mnemonic::Cmpsq, MemoryMask::QWord),
        (Mnemonic::Scasq, MemoryMask::QWord),
    ];
    for (mnemonic, mask) in table {
        assert_eq!(mask_from_str_instr(mnemonic), Ok(mask));
    }
    assert_eq!(
        mask_from_str_instr(Mnemonic::Mov),
        Err(TraceError::UnknownStringMask)
    );
    assert_eq!(
        mask_from_str_instr(Mnemonic::Lea),
        Err(TraceError::UnknownStringMask)
    );
}

#[test]
fn test_width_derivation() {
    let sized = [
        (MemorySize::UInt8, MemoryMask::Byte),
        (MemorySize::Int8, MemoryMask::Byte),
        (MemorySize::UInt16, MemoryMask::Word),
        (MemorySize::Int16, MemoryMask::Word),
        (MemorySize::UInt32, MemoryMask::DWord),
        (MemorySize::Int32, MemoryMask::DWord),
        (MemorySize::UInt64, MemoryMask::QWord),
        (MemorySize::Int64, MemoryMask::QWord),
    ];
    for (size, mask) in sized {
        assert_eq!(mask_of_use(size, Mnemonic::Mov, false), Ok(Some(mask)));
        assert_eq!(mask_of_use(size, Mnemonic::Mov, true), Ok(Some(mask)));
    }
    assert_eq!(
        mask_of_use(MemorySize::Unknown, Mnemonic::Stosw, false),
        Ok(Some(MemoryMask::Word))
    );
    assert_eq!(
        mask_of_use(MemorySize::Unknown, Mnemonic::Mov, true),
        Err(TraceError::UnknownStringMask)
    );
    assert_eq!(
        mask_of_use(MemorySize::UInt128, Mnemonic::Mov, false),
        Err(TraceError::UnsupportedMemSize)
    );
    assert_eq!(
        mask_of_use(MemorySize::UInt128, Mnemonic::Mov, true),
        Ok(None)
    );
    assert_eq!(
        mask_of_use(MemorySize::Float64, Mnemonic::Fld, true),
        Ok(None)
    );
}

#[test]
fn test_plan_of_several_uses() {
    // As for MOVSB: a read at one address, a write at another.
    let instr = decoded(
        Mnemonic::Movsb,
        vec![
            used(OpAccess::CondRead, MemorySize::Unknown, Some(0x1000)),
            used(OpAccess::CondWrite, MemorySize::Unknown, Some(0x2000)),
            used(OpAccess::ReadWrite, MemorySize::UInt32, Some(0x3000)),
        ],
    );
    let plan = tracee_hints_stage1(&instr, false);
    assert_eq!(plan.failure, None);
    assert_eq!(
        plan.accesses,
        vec![
            access(0x1000, MemoryOp::Read, MemoryMask::Byte),
            access(0x2000, MemoryOp::Write, MemoryMask::Byte),
            access(0x3000, MemoryOp::Read, MemoryMask::DWord),
            access(0x3000, MemoryOp::Write, MemoryMask::DWord),
        ]
    );

    let nothing = tracee_hints_stage1(&decoded(Mnemonic::Nop, vec![]), false);
    assert_eq!(nothing.failure, None);
    assert!(nothing.accesses.is_empty());
}

#[test]
fn test_plan_stops_at_the_first_error() {
    let uses = vec![
        used(OpAccess::Read, MemorySize::UInt16, Some(0x1000)),
        used(OpAccess::Write, MemorySize::UInt512, Some(0x2000)),
        used(OpAccess::Write, MemorySize::UInt8, None),
        used(OpAccess::Read, MemorySize::UInt8, Some(0x4000)),
    ];
    let first = access(0x1000, MemoryOp::Read, MemoryMask::Word);

    let strict = tracee_hints_stage1(&decoded(Mnemonic::Mov, uses.clone()), false);
    assert_eq!(strict.failure, Some(TraceError::UnsupportedMemSize));
    assert_eq!(strict.accesses, vec![first]);

    // The unsupported use is skipped, and the next one has no address.
    let lenient = tracee_hints_stage1(&decoded(Mnemonic::Mov, uses), true);
    assert_eq!(lenient.failure, Some(TraceError::AddressCalculation));
    assert_eq!(lenient.accesses, vec![first]);
}

#[test]
fn test_errors_of_a_use_in_their_order() {
    // The access kind is judged before the size, the size before the address.
    let plan = tracee_hints_stage1(
        &decoded(
            Mnemonic::Lea,
            vec![used(OpAccess::NoMemAccess, MemorySize::UInt512, None)],
        ),
        false,
    );
    assert_eq!(plan.failure, Some(TraceError::UnsupportedMemOp));

    let plan = tracee_hints_stage1(
        &decoded(
            Mnemonic::Mov,
            vec![used(OpAccess::Read, MemorySize::Unknown, None)],
        ),
        true,
    );
    assert_eq!(plan.failure, Some(TraceError::UnknownStringMask));

    let plan = tracee_hints_stage1(
        &decoded(
            Mnemonic::Mov,
            vec![used(OpAccess::Read, MemorySize::UInt512, None)],
        ),
        true,
    );
    assert_eq!(plan.failure, None);
    assert!(plan.accesses.is_empty());

    let plan = tracee_hints_stage1(
        &decoded(
            Mnemonic::Mov,
            vec![used(OpAccess::Read, MemorySize::UInt64, None)],
        ),
        true,
    );
    assert_eq!(plan.failure, Some(TraceError::AddressCalculation));
}

#[test]
fn test_hint_data_is_captured_low_bytes_first() {
    let bytes = vec![1, 2, 3, 4, 5, 6, 7, 8];
    assert_eq!(capture(&bytes, MemoryMask::Byte), vec![1]);
    assert_eq!(capture(&bytes, MemoryMask::Word), vec![1, 2]);
    assert_eq!(capture(&bytes, MemoryMask::DWord), vec![1, 2, 3, 4]);
    assert_eq!(capture(&bytes, MemoryMask::QWord), vec![1, 2, 3, 4]);
    assert_eq!(capture(&vec![9], MemoryMask::DWord), vec![9]);
    assert_eq!(capture(&vec![], MemoryMask::QWord), Vec::<u8>::new());

    let write = access(0x10, MemoryOp::Write, MemoryMask::QWord);
    let blank = write.placeholder();
    assert_eq!(blank.address, 0x10);
    assert_eq!(blank.operation, MemoryOp::Write);
    assert_eq!(blank.mask, MemoryMask::QWord);
    assert_eq!(blank.data, vec![0, 0, 0, 0]);
    assert_eq!(
        access(0x10, MemoryOp::Write, MemoryMask::Byte).placeholder().data,
        vec![0]
    );

    let read = access(0x20, MemoryOp::Read, MemoryMask::Word);
    let seen = read.observed(&vec![0xcd, 0xab]);
    assert_eq!(seen.address, 0x20);
    assert_eq!(seen.operation, MemoryOp::Read);
    assert_eq!(seen.mask, MemoryMask::Word);
    assert_eq!(seen.data, vec![0xcd, 0xab]);
}
