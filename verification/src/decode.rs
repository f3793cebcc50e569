//! The boundary to the instruction decoder: what the controller reads of a
//! decoded instruction, as plain values.

use crate::registers::RegisterFile;
use iced_x86::{
    Decoder, DecoderOptions, InstructionInfoFactory, InstructionInfoOptions, MemorySize, Mnemonic,
    OpAccess, Register,
};
use vstd::prelude::*;

verus! {

/// `iced_x86::Mnemonic`, the decoder's instruction mnemonics. Verus reads
/// the enum's variants; nothing else is claimed of it.
#[verifier::external_type_specification]
pub struct ExMnemonic(Mnemonic);

/// `iced_x86::MemorySize`, the decoder's memory operand sizes. Verus reads
/// the enum's variants; nothing else is claimed of it.
#[verifier::external_type_specification]
pub struct ExMemorySize(MemorySize);

/// `iced_x86::OpAccess`, the decoder's access kinds. Verus reads the enum's
/// variants; nothing else is claimed of it.
#[verifier::external_type_specification]
pub struct ExOpAccess(OpAccess);

/// The longest x86 instruction, in bytes, and the number of bytes fetched
/// at the instruction pointer.
pub const MAX_INSTR_LEN: usize = 15;

/// One memory use that the decoder declares for an instruction: how the
/// memory is accessed, how much of it, and where.
#[derive(Clone, Copy, Debug)]
pub struct MemoryUse {
    /// The declared access kind.
    pub access: OpAccess,
    /// The declared size of the operand.
    pub size: MemorySize,
    /// The effective virtual address against the register file, or `None`
    /// where it depends on a register that is not tracked.
    pub address: Option<u64>,
}

/// What the controller reads of a decoded instruction.
#[derive(Debug)]
pub struct Decoded {
    /// The number of bytes of the instruction.
    pub length: usize,
    /// Whether the bytes decode to no instruction.
    pub invalid: bool,
    /// The instruction's mnemonic.
    pub mnemonic: Mnemonic,
    /// The instruction's declared memory uses, in the decoder's order.
    pub uses: Vec<MemoryUse>,
}

/// What a `Decoded` holds, as a mathematical value.
pub struct DecodedView {
    pub length: nat,
    pub invalid: bool,
    pub mnemonic: Mnemonic,
    pub uses: Seq<MemoryUse>,
}

impl View for Decoded {
    type V = DecodedView;

    open spec fn view(&self) -> DecodedView {
        DecodedView {
            length: self.length as nat,
            invalid: self.invalid,
            mnemonic: self.mnemonic,
            uses: self.uses@,
        }
    }
}

/// Whether the decoder decodes at `bitness`.
pub open spec fn bitness_supported(bitness: u32) -> bool {
    bitness == 16 || bitness == 32 || bitness == 64
}

/// What the decoder makes of `bytes` at `bitness`, taken to stand at the
/// address `ip`, with effective addresses computed against `regs`.
pub uninterp spec fn decoding(bytes: Seq<u8>, bitness: u32, ip: u64, regs: RegisterFile) -> DecodedView;

/// The value of `reg` for the decoder's address computation: `None` where
/// the register is not tracked.
pub fn register_value(regs: &RegisterFile, reg: Register) -> (v: Option<u64>)
    ensures
        v == regs.value_of(reg),
{
    match regs.value(reg) {
        Ok(v) => Some(v),
        Err(_) => None,
    }
}

/// Decodes the first instruction of `bytes` with `iced_x86::Decoder`
/// (`Decoder::with_ip` without decoder options, then `Decoder::decode`), and
/// lists its memory uses with `InstructionInfoFactory::info_options`
/// (register usage left out) and `InstructionInfo::used_memory`.
///
/// The fields of the result are what `Instruction::len`,
/// `Instruction::is_invalid`, `Instruction::mnemonic`, `UsedMemory::access`
/// and `UsedMemory::memory_size` return; each use's address is what
/// `UsedMemory::try_virtual_address` returns for element 0 where it resolves
/// registers by `register_value`.
///
/// Claimed of the decoder, and not proved: the result depends on the
/// arguments alone; the instruction is no longer than the bytes offered,
/// and no longer than fifteen bytes. The decoder has no mode for any other
/// bitness than 16, 32 and 64.
#[verifier::external_body]
pub(crate) fn decode(bytes: &Vec<u8>, bitness: u32, ip: u64, regs: &RegisterFile) -> (d: Decoded)
    requires
        bitness_supported(bitness),
    ensures
        d@ == decoding(bytes@, bitness, ip, *regs),
        d.length <= bytes@.len(),
        d.length <= MAX_INSTR_LEN,
{
    let instr = Decoder::with_ip(bitness, bytes, ip, DecoderOptions::NONE).decode();
    let mut factory = InstructionInfoFactory::new();
    let info = factory.info_options(&instr, InstructionInfoOptions::NO_REGISTER_USAGE);
    let uses = info.used_memory().iter().map(|m| MemoryUse {
        access: m.access(),
        size: m.memory_size(),
        address: m.try_virtual_address(0, |reg, _, _| register_value(regs, reg)),
    }).collect();
    Decoded { length: instr.len(), invalid: instr.is_invalid(), mnemonic: instr.mnemonic(), uses }
}

} // verus!
