//! Hint reconstruction: from the memory uses that the decoder declares for
//! an instruction to the concrete accesses that the controller observes.

use crate::decode::{Decoded, MemoryUse};
use crate::trace::{
    MemoryHint, MemoryHintView, MemoryMask, MemoryOp, TraceError, MAX_HINT_DATA_LEN,
};
use iced_x86::{MemorySize, Mnemonic, OpAccess};
use vstd::prelude::*;

verus! {

/// One concrete memory access that an instruction performs: a hint without
/// its data.
#[derive(Clone, Copy, Debug, PartialEq, Eq, Structural)]
pub struct MemoryAccess {
    pub address: u64,
    pub operation: MemoryOp,
    pub mask: MemoryMask,
}

/// The operations that an access kind stands for, in the order in which
/// they are traced, or `None` for a kind that is not modeled.
///
/// Writebacks are two separate operations. Conditional reads and writes
/// count as real ones, since repeated instructions are single-stepped.
pub open spec fn access_operations(access: OpAccess) -> Option<Seq<MemoryOp>> {
    match access {
        OpAccess::Read | OpAccess::CondRead => Some(seq![MemoryOp::Read]),
        OpAccess::Write | OpAccess::CondWrite => Some(seq![MemoryOp::Write]),
        OpAccess::ReadWrite | OpAccess::ReadCondWrite => Some(
            seq![MemoryOp::Read, MemoryOp::Write],
        ),
        _ => None,
    }
}

/// The width of one execution of a string instruction, by its mnemonic's
/// suffix; `None` for any other mnemonic.
pub open spec fn string_mask(mnemonic: Mnemonic) -> Option<MemoryMask> {
    match mnemonic {
        Mnemonic::Lodsb | Mnemonic::Stosb | Mnemonic::Movsb | Mnemonic::Cmpsb | Mnemonic::Scasb => {
            Some(MemoryMask::Byte)
        },
        Mnemonic::Lodsw | Mnemonic::Stosw | Mnemonic::Movsw | Mnemonic::Cmpsw | Mnemonic::Scasw => {
            Some(MemoryMask::Word)
        },
        Mnemonic::Lodsd | Mnemonic::Stosd | Mnemonic::Movsd | Mnemonic::Cmpsd | Mnemonic::Scasd => {
            Some(MemoryMask::DWord)
        },
        Mnemonic::Lodsq | Mnemonic::Stosq | Mnemonic::Movsq | Mnemonic::Cmpsq | Mnemonic::Scasq => {
            Some(MemoryMask::QWord)
        },
        _ => None,
    }
}

/// The width of a memory use of the declared size `size` on an instruction
/// with the mnemonic `mnemonic`: `Ok(None)` where the use is to be skipped.
///
/// Integers of 8 to 64 bits have their own width; a use of unknown size
/// has the width of its string instruction; any other size is skipped if
/// `ignore_unsupported` is set, and an error if not.
pub open spec fn use_mask(size: MemorySize, mnemonic: Mnemonic, ignore_unsupported: bool) -> Result<
    Option<MemoryMask>,
    TraceError,
> {
    match size {
        MemorySize::UInt8 | MemorySize::Int8 => Ok(Some(MemoryMask::Byte)),
        MemorySize::UInt16 | MemorySize::Int16 => Ok(Some(MemoryMask::Word)),
        MemorySize::UInt32 | MemorySize::Int32 => Ok(Some(MemoryMask::DWord)),
        MemorySize::UInt64 | MemorySize::Int64 => Ok(Some(MemoryMask::QWord)),
        MemorySize::Unknown => match string_mask(mnemonic) {
            Some(mask) => Ok(Some(mask)),
            None => Err(TraceError::UnknownStringMask),
        },
        _ => if ignore_unsupported {
            Ok(None)
        } else {
            Err(TraceError::UnsupportedMemSize)
        },
    }
}

/// The accesses of one memory use, or the error that it raises. The access
/// kind is judged first, then the size, then the address.
pub open spec fn use_accesses(used: MemoryUse, mnemonic: Mnemonic, ignore_unsupported: bool) -> Result<
    Seq<MemoryAccess>,
    TraceError,
> {
    match access_operations(used.access) {
        None => Err(TraceError::UnsupportedMemOp),
        Some(operations) => match use_mask(used.size, mnemonic, ignore_unsupported) {
            Err(e) => Err(e),
            Ok(None) => Ok(Seq::empty()),
            Ok(Some(mask)) => match used.address {
                None => Err(TraceError::AddressCalculation),
                Some(address) => Ok(
                    Seq::new(
                        operations.len(),
                        |i: int| MemoryAccess { address, operation: operations[i], mask },
                    ),
                ),
            },
        },
    }
}

/// The accesses of an instruction's memory uses, in order, up to the first
/// use that raises an error, together with that error.
pub open spec fn planned(uses: Seq<MemoryUse>, mnemonic: Mnemonic, ignore_unsupported: bool) -> (
    Seq<MemoryAccess>,
    Option<TraceError>,
)
    decreases uses.len(),
{
    if uses.len() == 0 {
        (Seq::empty(), None)
    } else {
        let before = planned(uses.drop_last(), mnemonic, ignore_unsupported);
        if before.1 is Some {
            before
        } else {
            match use_accesses(uses.last(), mnemonic, ignore_unsupported) {
                Err(e) => (before.0, Some(e)),
                Ok(accesses) => (before.0 + accesses, None),
            }
        }
    }
}

/// The accesses that an instruction is expected to perform, and the error
/// at which its memory uses stop being followed, if any. The accesses that
/// precede the error are observed before it is reported.
#[derive(Debug)]
pub struct HintPlan {
    pub accesses: Vec<MemoryAccess>,
    pub failure: Option<TraceError>,
}

/// The operations that an access kind stands for.
pub fn operations_of(access: OpAccess) -> (r: Result<Vec<MemoryOp>, TraceError>)
    ensures
        r is Ok <==> access_operations(access) is Some,
        r is Ok ==> Some(r->Ok_0@) == access_operations(access),
        r is Err ==> r->Err_0 == TraceError::UnsupportedMemOp,
{
    let mut operations: Vec<MemoryOp> = Vec::new();
    match access {
        OpAccess::Read | OpAccess::CondRead => {
            operations.push(MemoryOp::Read);
        },
        OpAccess::Write | OpAccess::CondWrite => {
            operations.push(MemoryOp::Write);
        },
        OpAccess::ReadWrite | OpAccess::ReadCondWrite => {
            operations.push(MemoryOp::Read);
            operations.push(MemoryOp::Write);
        },
        _ => {
            return Err(TraceError::UnsupportedMemOp);
        },
    }
    assert(operations@ =~= access_operations(access)->Some_0);
    Ok(operations)
}

/// Given the mnemonic of a string instruction (e.g., `MOVS`, `LODS`), return
/// its expected memory mask (i.e., the size in bytes that one execution
/// reads and/or writes).
pub fn mask_from_str_instr(mnemonic: Mnemonic) -> (r: Result<MemoryMask, TraceError>)
    ensures
        r is Ok <==> string_mask(mnemonic) is Some,
        r is Ok ==> Some(r->Ok_0) == string_mask(mnemonic),
        r is Err ==> r->Err_0 == TraceError::UnknownStringMask,
{
    match mnemonic {
        Mnemonic::Lodsb | Mnemonic::Stosb | Mnemonic::Movsb | Mnemonic::Cmpsb | Mnemonic::Scasb => {
            Ok(MemoryMask::Byte)
        },
        Mnemonic::Lodsw | Mnemonic::Stosw | Mnemonic::Movsw | Mnemonic::Cmpsw | Mnemonic::Scasw => {
            Ok(MemoryMask::Word)
        },
        Mnemonic::Lodsd | Mnemonic::Stosd | Mnemonic::Movsd | Mnemonic::Cmpsd | Mnemonic::Scasd => {
            Ok(MemoryMask::DWord)
        },
        Mnemonic::Lodsq | Mnemonic::Stosq | Mnemonic::Movsq | Mnemonic::Cmpsq | Mnemonic::Scasq => {
            Ok(MemoryMask::QWord)
        },
        _ => Err(TraceError::UnknownStringMask),
    }
}

/// The width of a memory use, `Ok(None)` where the use is to be skipped.
pub fn mask_of_use(size: MemorySize, mnemonic: Mnemonic, ignore_unsupported: bool) -> (r: Result<
    Option<MemoryMask>,
    TraceError,
>)
    ensures
        r == use_mask(size, mnemonic, ignore_unsupported),
{
    match size {
        MemorySize::UInt8 | MemorySize::Int8 => Ok(Some(MemoryMask::Byte)),
        MemorySize::UInt16 | MemorySize::Int16 => Ok(Some(MemoryMask::Word)),
        MemorySize::UInt32 | MemorySize::Int32 => Ok(Some(MemoryMask::DWord)),
        MemorySize::UInt64 | MemorySize::Int64 => Ok(Some(MemoryMask::QWord)),
        MemorySize::Unknown => match mask_from_str_instr(mnemonic) {
            Ok(mask) => Ok(Some(mask)),
            Err(e) => Err(e),
        },
        _ => {
            if ignore_unsupported {
                Ok(None)
            } else {
                Err(TraceError::UnsupportedMemSize)
            }
        },
    }
}

/// The first stage of hint reconstruction: the accesses that the decoded
/// instruction is expected to perform, one for each read and each write of
/// each of its memory uses, in the decoder's order.
pub fn tracee_hints_stage1(decoded: &Decoded, ignore_unsupported: bool) -> (plan: HintPlan)
    ensures
        (plan.accesses@, plan.failure) == planned(
            decoded@.uses,
            decoded@.mnemonic,
            ignore_unsupported,
        ),
{
    let mut accesses: Vec<MemoryAccess> = Vec::new();
    let mut i: usize = 0;
    while i < decoded.uses.len()
        invariant
            i <= decoded.uses@.len(),
            (accesses@, None::<TraceError>) == planned(
                decoded.uses@.take(i as int),
                decoded.mnemonic,
                ignore_unsupported,
            ),
        decreases decoded.uses@.len() - i,
    {
        let used: MemoryUse = decoded.uses[i];
        let ghost prefix = decoded.uses@.take(i as int);
        let ghost next = decoded.uses@.take(i + 1);
        proof {
            assert(next.drop_last() =~= prefix);
            assert(next.last() == used);
        }
        let operations = match operations_of(used.access) {
            Ok(operations) => operations,
            Err(e) => {
                proof {
                    lemma_planned_stops(decoded.uses@, i + 1, decoded.mnemonic, ignore_unsupported);
                }
                return HintPlan { accesses, failure: Some(e) };
            },
        };
        let mask = match mask_of_use(used.size, decoded.mnemonic, ignore_unsupported) {
            Ok(Some(mask)) => mask,
            Ok(None) => {
                proof {
                    assert(accesses@ + Seq::<MemoryAccess>::empty() =~= accesses@);
                }
                i += 1;
                continue ;
            },
            Err(e) => {
                proof {
                    lemma_planned_stops(decoded.uses@, i + 1, decoded.mnemonic, ignore_unsupported);
                }
                return HintPlan { accesses, failure: Some(e) };
            },
        };
        let address = match used.address {
            Some(address) => address,
            None => {
                proof {
                    lemma_planned_stops(decoded.uses@, i + 1, decoded.mnemonic, ignore_unsupported);
                }
                return HintPlan { accesses, failure: Some(TraceError::AddressCalculation) };
            },
        };
        let ghost before = accesses@;
        let ghost expected = use_accesses(used, decoded.mnemonic, ignore_unsupported)->Ok_0;
        let mut j: usize = 0;
        while j < operations.len()
            invariant
                j <= operations@.len(),
                expected.len() == operations@.len(),
                forall|k: int|
                    0 <= k < expected.len() ==> expected[k] == (MemoryAccess {
                        address,
                        operation: operations@[k],
                        mask,
                    }),
                accesses@ == before + expected.take(j as int),
            decreases operations@.len() - j,
        {
            accesses.push(MemoryAccess { address, operation: operations[j], mask });
            j += 1;
            assert(accesses@ =~= before + expected.take(j as int));
        }
        assert(accesses@ =~= before + expected);
        i += 1;
    }
    assert(decoded.uses@.take(i as int) =~= decoded.uses@);
    HintPlan { accesses, failure: None }
}

/// Once a prefix of the uses has raised an error, the uses behind it add
/// nothing to the plan.
proof fn lemma_planned_stops(
    uses: Seq<MemoryUse>,
    n: int,
    mnemonic: Mnemonic,
    ignore_unsupported: bool,
)
    requires
        0 <= n <= uses.len(),
        planned(uses.take(n), mnemonic, ignore_unsupported).1 is Some,
    ensures
        planned(uses, mnemonic, ignore_unsupported) == planned(
            uses.take(n),
            mnemonic,
            ignore_unsupported,
        ),
    decreases uses.len() - n,
{
    if n == uses.len() {
        assert(uses.take(n) =~= uses);
    } else {
        assert(uses.take(n + 1).drop_last() =~= uses.take(n));
        lemma_planned_stops(uses, n + 1, mnemonic, ignore_unsupported);
    }
}

/// The bytes that a hint of width `mask` keeps of `bytes`: as many as the
/// width covers, and no more than four.
pub open spec fn captured(bytes: Seq<u8>, mask: MemoryMask) -> Seq<u8> {
    let keep = if mask.width() < MAX_HINT_DATA_LEN {
        mask.width()
    } else {
        MAX_HINT_DATA_LEN as nat
    };
    if bytes.len() <= keep {
        bytes
    } else {
        bytes.take(keep as int)
    }
}

/// The data of a hint whose memory has not been read yet: zero, in as many
/// bytes as a hint of width `mask` keeps.
pub open spec fn blank(mask: MemoryMask) -> Seq<u8> {
    captured(Seq::new(mask.width(), |i: int| 0u8), mask)
}

/// The bytes that a hint of width `mask` keeps of `bytes`.
pub fn capture(bytes: &Vec<u8>, mask: MemoryMask) -> (data: Vec<u8>)
    ensures
        data@ == captured(bytes@, mask),
{
    let width: u64 = mask.bytes();
    let keep: usize = if width < 4 {
        width as usize
    } else {
        MAX_HINT_DATA_LEN
    };
    let n: usize = if bytes.len() <= keep {
        bytes.len()
    } else {
        keep
    };
    let mut data: Vec<u8> = Vec::new();
    let mut i: usize = 0;
    while i < n
        invariant
            i <= n <= bytes@.len(),
            data@ == bytes@.take(i as int),
        decreases n - i,
    {
        data.push(bytes[i]);
        i += 1;
        assert(data@ =~= bytes@.take(i as int));
    }
    assert(bytes@.take(bytes@.len() as int) =~= bytes@);
    data
}

impl MemoryAccess {
    /// The hint of this access before its memory has been read.
    pub open spec fn placeholder_view(self) -> MemoryHintView {
        MemoryHintView {
            address: self.address,
            operation: self.operation,
            mask: self.mask,
            data: blank(self.mask),
        }
    }

    /// The hint of this access where `bytes` were read at its address.
    pub open spec fn observed_view(self, bytes: Seq<u8>) -> MemoryHintView {
        MemoryHintView {
            address: self.address,
            operation: self.operation,
            mask: self.mask,
            data: captured(bytes, self.mask),
        }
    }

    /// The hint of this access before its memory has been read: its data
    /// is zero.
    pub fn placeholder(&self) -> (hint: MemoryHint)
        ensures
            hint@ == self.placeholder_view(),
            hint@.wf(),
    {
        let mut zeroes: Vec<u8> = Vec::new();
        let width: u64 = self.mask.bytes();
        let mut i: u64 = 0;
        while i < width
            invariant
                i <= width,
                zeroes@ == Seq::new(i as nat, |k: int| 0u8),
            decreases width - i,
        {
            zeroes.push(0u8);
            i += 1;
            assert(zeroes@ =~= Seq::new(i as nat, |k: int| 0u8));
        }
        MemoryHint {
            address: self.address,
            operation: self.operation,
            mask: self.mask,
            data: capture(&zeroes, self.mask),
        }
    }

    /// The hint of this access where `bytes` were read at its address,
    /// lowest address first.
    pub fn observed(&self, bytes: &Vec<u8>) -> (hint: MemoryHint)
        ensures
            hint@ == self.observed_view(bytes@),
            hint@.wf(),
    {
        MemoryHint {
            address: self.address,
            operation: self.operation,
            mask: self.mask,
            data: capture(bytes, self.mask),
        }
    }
}

} // verus!
