//! The memory-hint model of a trace step.

use crate::registers::RegisterFile;
use vstd::prelude::*;
use vstd::std_specs::convert::TryFromSpecImpl;

verus! {

/// Why a step of the trace could not be produced.
#[derive(Clone, Copy, Debug, PartialEq, Eq, Structural)]
pub enum TraceError {
    /// A byte count other than 1, 2, 4 or 8 was offered as a width.
    UnsupportedSize(u64),
    /// The bytes at the instruction pointer do not decode.
    InvalidInstruction,
    /// A memory use of unknown size on an instruction that is not one of
    /// the string instructions.
    UnknownStringMask,
    /// A memory use whose access kind is neither a read nor a write.
    UnsupportedMemOp,
    /// A memory use whose size is not 8, 16, 32 or 64 bits.
    UnsupportedMemSize,
    /// The effective address of a memory use could not be computed.
    AddressCalculation,
    /// The instruction bytes could not be read from the tracee.
    Fetch { address: u64 },
    /// A memory operand could not be read from the tracee.
    Fault { address: u64, size: u64 },
    /// The driver reported something that the controller was not waiting for.
    UnexpectedEvent,
}

/// Represents the width of a concrete memory operation.
///
/// All memory operations are 1, 2, 4, or 8 bytes. Larger operations are
/// either modeled as multiple individual operations (if caused by a `REP`
/// prefix), ignored (if configured), or cause a fatal error.
#[derive(Clone, Copy, Debug, PartialEq, Eq, Structural)]
pub enum MemoryMask {
    Byte,
    Word,
    DWord,
    QWord,
}

impl MemoryMask {
    /// The number of bytes that an operation of this width covers.
    pub open spec fn width(self) -> nat {
        match self {
            MemoryMask::Byte => 1,
            MemoryMask::Word => 2,
            MemoryMask::DWord => 4,
            MemoryMask::QWord => 8,
        }
    }

    /// The width whose byte count is `size`, if there is one.
    pub open spec fn of_size(size: u64) -> Option<MemoryMask> {
        if size == 1 {
            Some(MemoryMask::Byte)
        } else if size == 2 {
            Some(MemoryMask::Word)
        } else if size == 4 {
            Some(MemoryMask::DWord)
        } else if size == 8 {
            Some(MemoryMask::QWord)
        } else {
            None
        }
    }

    /// The number of bytes that an operation of this width covers.
    pub fn bytes(self) -> (n: u64)
        ensures
            n == self.width(),
            MemoryMask::of_size(n) == Some(self),
    {
        match self {
            MemoryMask::Byte => 1,
            MemoryMask::Word => 2,
            MemoryMask::DWord => 4,
            MemoryMask::QWord => 8,
        }
    }
}

impl TryFrom<u64> for MemoryMask {
    type Error = TraceError;

    fn try_from(size: u64) -> (r: Result<Self, TraceError>) {
        match size {
            1 => Ok(MemoryMask::Byte),
            2 => Ok(MemoryMask::Word),
            4 => Ok(MemoryMask::DWord),
            8 => Ok(MemoryMask::QWord),
            _ => Err(TraceError::UnsupportedSize(size)),
        }
    }
}

impl TryFromSpecImpl<u64> for MemoryMask {
    open spec fn obeys_try_from_spec() -> bool {
        true
    }

    open spec fn try_from_spec(size: u64) -> Result<Self, TraceError> {
        match MemoryMask::of_size(size) {
            Some(mask) => Ok(mask),
            None => Err(TraceError::UnsupportedSize(size)),
        }
    }
}

/// The access disposition of a concrete memory operation.
///
/// All operations are either `Read` or `Write`. Instructions that perform a
/// read-and-update are modeled with two separate operations. Instructions
/// that perform conditional reads or writes are modeled only if the
/// conditional memory operation actually took place during the trace.
#[derive(Clone, Copy, Debug, PartialEq, Eq, Structural)]
pub enum MemoryOp {
    Read,
    Write,
}

/// Represents an entire traced memory operation, including its kind
/// (`MemoryOp`), size (`MemoryMask`), concrete address, and the bytes that
/// were read or written, lowest address first.
#[derive(Clone, Debug)]
pub struct MemoryHint {
    pub address: u64,
    pub operation: MemoryOp,
    pub mask: MemoryMask,
    pub data: Vec<u8>,
}

/// What a `MemoryHint` holds, as a mathematical value.
pub struct MemoryHintView {
    pub address: u64,
    pub operation: MemoryOp,
    pub mask: MemoryMask,
    pub data: Seq<u8>,
}

impl View for MemoryHint {
    type V = MemoryHintView;

    open spec fn view(&self) -> MemoryHintView {
        MemoryHintView {
            address: self.address,
            operation: self.operation,
            mask: self.mask,
            data: self.data@,
        }
    }
}

/// The most data bytes that a hint carries.
pub const MAX_HINT_DATA_LEN: usize = 4;

impl MemoryHintView {
    /// A hint carries no more bytes than its width, and no more than four.
    pub open spec fn wf(self) -> bool {
        self.data.len() <= self.mask.width() && self.data.len() <= MAX_HINT_DATA_LEN
    }
}

/// Represents an individual step in the trace, including the raw instruction
/// bytes, the register file state before execution, and any memory operations
/// that result from execution.
#[derive(Clone, Debug)]
pub struct Step {
    pub instr: Vec<u8>,
    pub regs: RegisterFile,
    pub hints: Vec<MemoryHint>,
}

/// What each of `hints` holds, in order.
pub open spec fn hint_views(hints: Seq<MemoryHint>) -> Seq<MemoryHintView> {
    Seq::new(hints.len(), |i: int| hints[i]@)
}

/// What a `Step` holds, as a mathematical value.
pub struct StepView {
    pub instr: Seq<u8>,
    pub regs: RegisterFile,
    pub hints: Seq<MemoryHintView>,
}

impl View for Step {
    type V = StepView;

    open spec fn view(&self) -> StepView {
        StepView {
            instr: self.instr@,
            regs: self.regs,
            hints: hint_views(self.hints@),
        }
    }
}

} // verus!
