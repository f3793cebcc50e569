//! The tracked (usermode) register file and its projection by register name.

use iced_x86::Register;
use libc::user_regs_struct;
use vstd::prelude::*;
use vstd::std_specs::convert::FromSpecImpl;

verus! {

/// `iced_x86::Register`, the decoder's alphabet of symbolic register names.
/// Verus reads the enum's variants; nothing else is claimed of it.
#[verifier::external_type_specification]
pub struct ExRegister(Register);

/// `libc::user_regs_struct`, the kernel's record of a stopped process's
/// user registers. Verus reads the struct's fields; nothing else is
/// claimed of it.
#[verifier::external_type_specification]
pub struct ExUserRegsStruct(user_regs_struct);

/// Why a register-file lookup failed.
#[derive(Clone, Copy, Debug, PartialEq, Eq, Structural)]
pub enum RegisterError {
    /// The register is not part of the tracked register file
    /// (vector, control, debug, FPU, mask and similar registers).
    Untracked,
}

/// Represents the (usermode) register file.
///
/// Only the standard addressable registers, plus `RFLAGS`, are tracked.
/// All segment base addresses are taken to be `0` and are therefore not
/// tracked (with the exception of the `FSBASE` and `GSBASE` MSRs).
#[derive(Clone, Copy, Debug, PartialEq, Eq, Structural)]
pub struct RegisterFile {
    pub rax: u64,
    pub rbx: u64,
    pub rcx: u64,
    pub rdx: u64,
    pub rsi: u64,
    pub rdi: u64,
    pub rsp: u64,
    pub rbp: u64,
    pub r8: u64,
    pub r9: u64,
    pub r10: u64,
    pub r11: u64,
    pub r12: u64,
    pub r13: u64,
    pub r14: u64,
    pub r15: u64,
    pub rip: u64,
    pub rflags: u64,
    pub fs_base: u64,
    pub gs_base: u64,
}

/// The low 8 bits of `v`.
pub open spec fn low8(v: u64) -> u64 {
    v & 0xff
}

/// Bits 15..8 of `v`.
pub open spec fn high8(v: u64) -> u64 {
    (v >> 8) & 0xff
}

/// The low 16 bits of `v`.
pub open spec fn low16(v: u64) -> u64 {
    v & 0xffff
}

/// The low 32 bits of `v`, zero-extended.
pub open spec fn low32(v: u64) -> u64 {
    v & 0xffff_ffff
}

impl Default for RegisterFile {
    fn default() -> (regs: Self)
        ensures
            regs == RegisterFile::zeroed(),
    {
        RegisterFile {
            rax: 0,
            rbx: 0,
            rcx: 0,
            rdx: 0,
            rsi: 0,
            rdi: 0,
            rsp: 0,
            rbp: 0,
            r8: 0,
            r9: 0,
            r10: 0,
            r11: 0,
            r12: 0,
            r13: 0,
            r14: 0,
            r15: 0,
            rip: 0,
            rflags: 0,
            fs_base: 0,
            gs_base: 0,
        }
    }
}

impl From<user_regs_struct> for RegisterFile {
    fn from(user_regs: user_regs_struct) -> (regs: Self) {
        Self {
            rax: user_regs.rax,
            rbx: user_regs.rbx,
            rcx: user_regs.rcx,
            rdx: user_regs.rdx,
            rsi: user_regs.rsi,
            rdi: user_regs.rdi,
            rsp: user_regs.rsp,
            rbp: user_regs.rbp,
            r8: user_regs.r8,
            r9: user_regs.r9,
            r10: user_regs.r10,
            r11: user_regs.r11,
            r12: user_regs.r12,
            r13: user_regs.r13,
            r14: user_regs.r14,
            r15: user_regs.r15,
            rip: user_regs.rip,
            rflags: user_regs.eflags,
            fs_base: user_regs.fs_base,
            gs_base: user_regs.gs_base,
        }
    }
}

impl FromSpecImpl<user_regs_struct> for RegisterFile {
    open spec fn obeys_from_spec() -> bool {
        true
    }

    /// The snapshot of a process's user registers: each tracked register
    /// has the value of the kernel's field of its name, and the flags
    /// word that of `eflags`.
    open spec fn from_spec(user_regs: user_regs_struct) -> Self {
        RegisterFile {
            rax: user_regs.rax,
            rbx: user_regs.rbx,
            rcx: user_regs.rcx,
            rdx: user_regs.rdx,
            rsi: user_regs.rsi,
            rdi: user_regs.rdi,
            rsp: user_regs.rsp,
            rbp: user_regs.rbp,
            r8: user_regs.r8,
            r9: user_regs.r9,
            r10: user_regs.r10,
            r11: user_regs.r11,
            r12: user_regs.r12,
            r13: user_regs.r13,
            r14: user_regs.r14,
            r15: user_regs.r15,
            rip: user_regs.rip,
            rflags: user_regs.eflags,
            fs_base: user_regs.fs_base,
            gs_base: user_regs.gs_base,
        }
    }
}

impl RegisterFile {
    /// The register file in which every field is zero.
    pub open spec fn zeroed() -> RegisterFile {
        RegisterFile {
            rax: 0,
            rbx: 0,
            rcx: 0,
            rdx: 0,
            rsi: 0,
            rdi: 0,
            rsp: 0,
            rbp: 0,
            r8: 0,
            r9: 0,
            r10: 0,
            r11: 0,
            r12: 0,
            r13: 0,
            r14: 0,
            r15: 0,
            rip: 0,
            rflags: 0,
            fs_base: 0,
            gs_base: 0,
        }
    }

    /// The concrete value of `reg` against this register file, or `None`
    /// where `reg` is not tracked.
    ///
    /// Narrow names project the low bits of their 64-bit register (the four
    /// legacy high-byte names project bits 15..8), `FS` and `GS` stand for
    /// their base addresses, and the other segment registers are `0`.
    pub open spec fn value_of(self, reg: Register) -> Option<u64> {
        match reg {
            Register::AL => Some(low8(self.rax)),
            Register::BL => Some(low8(self.rbx)),
            Register::CL => Some(low8(self.rcx)),
            Register::DL => Some(low8(self.rdx)),
            Register::AH => Some(high8(self.rax)),
            Register::BH => Some(high8(self.rbx)),
            Register::CH => Some(high8(self.rcx)),
            Register::DH => Some(high8(self.rdx)),
            Register::SIL => Some(low8(self.rsi)),
            Register::DIL => Some(low8(self.rdi)),
            Register::SPL => Some(low8(self.rsp)),
            Register::BPL => Some(low8(self.rbp)),
            Register::R8L => Some(low8(self.r8)),
            Register::R9L => Some(low8(self.r9)),
            Register::R10L => Some(low8(self.r10)),
            Register::R11L => Some(low8(self.r11)),
            Register::R12L => Some(low8(self.r12)),
            Register::R13L => Some(low8(self.r13)),
            Register::R14L => Some(low8(self.r14)),
            Register::R15L => Some(low8(self.r15)),
            Register::AX => Some(low16(self.rax)),
            Register::BX => Some(low16(self.rbx)),
            Register::CX => Some(low16(self.rcx)),
            Register::DX => Some(low16(self.rdx)),
            Register::SI => Some(low16(self.rsi)),
            Register::DI => Some(low16(self.rdi)),
            Register::SP => Some(low16(self.rsp)),
            Register::BP => Some(low16(self.rbp)),
            Register::R8W => Some(low16(self.r8)),
            Register::R9W => Some(low16(self.r9)),
            Register::R10W => Some(low16(self.r10)),
            Register::R11W => Some(low16(self.r11)),
            Register::R12W => Some(low16(self.r12)),
            Register::R13W => Some(low16(self.r13)),
            Register::R14W => Some(low16(self.r14)),
            Register::R15W => Some(low16(self.r15)),
            Register::EAX => Some(low32(self.rax)),
            Register::EBX => Some(low32(self.rbx)),
            Register::ECX => Some(low32(self.rcx)),
            Register::EDX => Some(low32(self.rdx)),
            Register::ESI => Some(low32(self.rsi)),
            Register::EDI => Some(low32(self.rdi)),
            Register::ESP => Some(low32(self.rsp)),
            Register::EBP => Some(low32(self.rbp)),
            Register::R8D => Some(low32(self.r8)),
            Register::R9D => Some(low32(self.r9)),
            Register::R10D => Some(low32(self.r10)),
            Register::R11D => Some(low32(self.r11)),
            Register::R12D => Some(low32(self.r12)),
            Register::R13D => Some(low32(self.r13)),
            Register::R14D => Some(low32(self.r14)),
            Register::R15D => Some(low32(self.r15)),
            Register::EIP => Some(low32(self.rip)),
            Register::RAX => Some(self.rax),
            Register::RBX => Some(self.rbx),
            Register::RCX => Some(self.rcx),
            Register::RDX => Some(self.rdx),
            Register::RSI => Some(self.rsi),
            Register::RDI => Some(self.rdi),
            Register::RSP => Some(self.rsp),
            Register::RBP => Some(self.rbp),
            Register::R8 => Some(self.r8),
            Register::R9 => Some(self.r9),
            Register::R10 => Some(self.r10),
            Register::R11 => Some(self.r11),
            Register::R12 => Some(self.r12),
            Register::R13 => Some(self.r13),
            Register::R14 => Some(self.r14),
            Register::R15 => Some(self.r15),
            Register::RIP => Some(self.rip),
            Register::FS => Some(self.fs_base),
            Register::GS => Some(self.gs_base),
            Register::SS | Register::CS | Register::DS | Register::ES => Some(0u64),
            _ => None,
        }
    }

    /// Given a symbolic register, concretize it against the register file,
    /// narrowing the result as appropriate.
    ///
    /// Untracked registers result in an `Err`.
    pub fn value(&self, reg: Register) -> (r: Result<u64, RegisterError>)
        ensures
            r is Ok <==> self.value_of(reg) is Some,
            r is Ok ==> Some(r->Ok_0) == self.value_of(reg),
            r is Err ==> r->Err_0 == RegisterError::Untracked,
    {
        match reg {
            // 8 bit regs.
            Register::AL => Ok(self.rax & 0xff),
            Register::BL => Ok(self.rbx & 0xff),
            Register::CL => Ok(self.rcx & 0xff),
            Register::DL => Ok(self.rdx & 0xff),
            Register::AH => Ok((self.rax >> 8) & 0xff),
            Register::BH => Ok((self.rbx >> 8) & 0xff),
            Register::CH => Ok((self.rcx >> 8) & 0xff),
            Register::DH => Ok((self.rdx >> 8) & 0xff),
            Register::SIL => Ok(self.rsi & 0xff),
            Register::DIL => Ok(self.rdi & 0xff),
            Register::SPL => Ok(self.rsp & 0xff),
            Register::BPL => Ok(self.rbp & 0xff),
            Register::R8L => Ok(self.r8 & 0xff),
            Register::R9L => Ok(self.r9 & 0xff),
            Register::R10L => Ok(self.r10 & 0xff),
            Register::R11L => Ok(self.r11 & 0xff),
            Register::R12L => Ok(self.r12 & 0xff),
            Register::R13L => Ok(self.r13 & 0xff),
            Register::R14L => Ok(self.r14 & 0xff),
            Register::R15L => Ok(self.r15 & 0xff),
            // 16 bit regs.
            Register::AX => Ok(self.rax & 0xffff),
            Register::BX => Ok(self.rbx & 0xffff),
            Register::CX => Ok(self.rcx & 0xffff),
            Register::DX => Ok(self.rdx & 0xffff),
            Register::SI => Ok(self.rsi & 0xffff),
            Register::DI => Ok(self.rdi & 0xffff),
            Register::SP => Ok(self.rsp & 0xffff),
            Register::BP => Ok(self.rbp & 0xffff),
            Register::R8W => Ok(self.r8 & 0xffff),
            Register::R9W => Ok(self.r9 & 0xffff),
            Register::R10W => Ok(self.r10 & 0xffff),
            Register::R11W => Ok(self.r11 & 0xffff),
            Register::R12W => Ok(self.r12 & 0xffff),
            Register::R13W => Ok(self.r13 & 0xffff),
            Register::R14W => Ok(self.r14 & 0xffff),
            Register::R15W => Ok(self.r15 & 0xffff),
            // 32 bit regs.
            Register::EAX => Ok(self.rax & 0xffff_ffff),
            Register::EBX => Ok(self.rbx & 0xffff_ffff),
            Register::ECX => Ok(self.rcx & 0xffff_ffff),
            Register::EDX => Ok(self.rdx & 0xffff_ffff),
            Register::ESI => Ok(self.rsi & 0xffff_ffff),
            Register::EDI => Ok(self.rdi & 0xffff_ffff),
            Register::ESP => Ok(self.rsp & 0xffff_ffff),
            Register::EBP => Ok(self.rbp & 0xffff_ffff),
            Register::R8D => Ok(self.r8 & 0xffff_ffff),
            Register::R9D => Ok(self.r9 & 0xffff_ffff),
            Register::R10D => Ok(self.r10 & 0xffff_ffff),
            Register::R11D => Ok(self.r11 & 0xffff_ffff),
            Register::R12D => Ok(self.r12 & 0xffff_ffff),
            Register::R13D => Ok(self.r13 & 0xffff_ffff),
            Register::R14D => Ok(self.r14 & 0xffff_ffff),
            Register::R15D => Ok(self.r15 & 0xffff_ffff),
            Register::EIP => Ok(self.rip & 0xffff_ffff),
            // 64 bit regs.
            Register::RAX => Ok(self.rax),
            Register::RBX => Ok(self.rbx),
            Register::RCX => Ok(self.rcx),
            Register::RDX => Ok(self.rdx),
            Register::RSI => Ok(self.rsi),
            Register::RDI => Ok(self.rdi),
            Register::RSP => Ok(self.rsp),
            Register::RBP => Ok(self.rbp),
            Register::R8 => Ok(self.r8),
            Register::R9 => Ok(self.r9),
            Register::R10 => Ok(self.r10),
            Register::R11 => Ok(self.r11),
            Register::R12 => Ok(self.r12),
            Register::R13 => Ok(self.r13),
            Register::R14 => Ok(self.r14),
            Register::R15 => Ok(self.r15),
            Register::RIP => Ok(self.rip),
            // FS and GS are supported because Linux uses them for TLS. Their
            // base addresses are returned, not their descriptor values.
            Register::FS => Ok(self.fs_base),
            Register::GS => Ok(self.gs_base),
            // All other segment registers are treated as 0 (flat model).
            Register::SS | Register::CS | Register::DS | Register::ES => Ok(0),
            // Everything else (vector regs, control regs, debug regs, etc) is
            // unsupported. `rflags` is tracked here, but has no register name.
            _ => Err(RegisterError::Untracked),
        }
    }
}

/// Whether `reg` is a register of the tracked register file: a general
/// purpose register or the instruction pointer, at any of their widths, or
/// a segment register.
pub open spec fn is_tracked(reg: Register) -> bool {
    is_general_purpose(reg) || is_instruction_pointer(reg) || is_segment(reg)
}

/// Whether `reg` names one of the sixteen general-purpose registers, or a
/// narrower part of one.
pub open spec fn is_general_purpose(reg: Register) -> bool {
    matches!(
        reg,
        Register::AL | Register::CL | Register::DL | Register::BL | Register::AH | Register::CH
            | Register::DH | Register::BH | Register::SPL | Register::BPL | Register::SIL
            | Register::DIL | Register::R8L | Register::R9L | Register::R10L | Register::R11L
            | Register::R12L | Register::R13L | Register::R14L | Register::R15L | Register::AX
            | Register::CX | Register::DX | Register::BX | Register::SP | Register::BP
            | Register::SI | Register::DI | Register::R8W | Register::R9W | Register::R10W
            | Register::R11W | Register::R12W | Register::R13W | Register::R14W | Register::R15W
            | Register::EAX | Register::ECX | Register::EDX | Register::EBX | Register::ESP
            | Register::EBP | Register::ESI | Register::EDI | Register::R8D | Register::R9D
            | Register::R10D | Register::R11D | Register::R12D | Register::R13D | Register::R14D
            | Register::R15D | Register::RAX | Register::RCX | Register::RDX | Register::RBX
            | Register::RSP | Register::RBP | Register::RSI | Register::RDI | Register::R8
            | Register::R9 | Register::R10 | Register::R11 | Register::R12 | Register::R13
            | Register::R14 | Register::R15
    )
}

/// Whether `reg` names the instruction pointer.
pub open spec fn is_instruction_pointer(reg: Register) -> bool {
    matches!(reg, Register::EIP | Register::RIP)
}

/// Whether `reg` names a segment register.
pub open spec fn is_segment(reg: Register) -> bool {
    matches!(
        reg,
        Register::ES | Register::CS | Register::SS | Register::DS | Register::FS | Register::GS
    )
}

/// Every general-purpose register projects at each of its widths: its low
/// byte, its low 16 and 32 bits, and its full value; the four legacy
/// high-byte names project bits 15..8; and the instruction pointer projects
/// at 32 and 64 bits.
pub proof fn lemma_register_projection(regs: RegisterFile)
    ensures
        regs.value_of(Register::AL) == Some(regs.rax & 0xff),
        regs.value_of(Register::AX) == Some(regs.rax & 0xffff),
        regs.value_of(Register::EAX) == Some(regs.rax & 0xffff_ffff),
        regs.value_of(Register::RAX) == Some(regs.rax),
        regs.value_of(Register::BL) == Some(regs.rbx & 0xff),
        regs.value_of(Register::BX) == Some(regs.rbx & 0xffff),
        regs.value_of(Register::EBX) == Some(regs.rbx & 0xffff_ffff),
        regs.value_of(Register::RBX) == Some(regs.rbx),
        regs.value_of(Register::CL) == Some(regs.rcx & 0xff),
        regs.value_of(Register::CX) == Some(regs.rcx & 0xffff),
        regs.value_of(Register::ECX) == Some(regs.rcx & 0xffff_ffff),
        regs.value_of(Register::RCX) == Some(regs.rcx),
        regs.value_of(Register::DL) == Some(regs.rdx & 0xff),
        regs.value_of(Register::DX) == Some(regs.rdx & 0xffff),
        regs.value_of(Register::EDX) == Some(regs.rdx & 0xffff_ffff),
        regs.value_of(Register::RDX) == Some(regs.rdx),
        regs.value_of(Register::SIL) == Some(regs.rsi & 0xff),
        regs.value_of(Register::SI) == Some(regs.rsi & 0xffff),
        regs.value_of(Register::ESI) == Some(regs.rsi & 0xffff_ffff),
        regs.value_of(Register::RSI) == Some(regs.rsi),
        regs.value_of(Register::DIL) == Some(regs.rdi & 0xff),
        regs.value_of(Register::DI) == Some(regs.rdi & 0xffff),
        regs.value_of(Register::EDI) == Some(regs.rdi & 0xffff_ffff),
        regs.value_of(Register::RDI) == Some(regs.rdi),
        regs.value_of(Register::SPL) == Some(regs.rsp & 0xff),
        regs.value_of(Register::SP) == Some(regs.rsp & 0xffff),
        regs.value_of(Register::ESP) == Some(regs.rsp & 0xffff_ffff),
        regs.value_of(Register::RSP) == Some(regs.rsp),
        regs.value_of(Register::BPL) == Some(regs.rbp & 0xff),
        regs.value_of(Register::BP) == Some(regs.rbp & 0xffff),
        regs.value_of(Register::EBP) == Some(regs.rbp & 0xffff_ffff),
        regs.value_of(Register::RBP) == Some(regs.rbp),
        regs.value_of(Register::R8L) == Some(regs.r8 & 0xff),
        regs.value_of(Register::R8W) == Some(regs.r8 & 0xffff),
        regs.value_of(Register::R8D) == Some(regs.r8 & 0xffff_ffff),
        regs.value_of(Register::R8) == Some(regs.r8),
        regs.value_of(Register::R9L) == Some(regs.r9 & 0xff),
        regs.value_of(Register::R9W) == Some(regs.r9 & 0xffff),
        regs.value_of(Register::R9D) == Some(regs.r9 & 0xffff_ffff),
        regs.value_of(Register::R9) == Some(regs.r9),
        regs.value_of(Register::R10L) == Some(regs.r10 & 0xff),
        regs.value_of(Register::R10W) == Some(regs.r10 & 0xffff),
        regs.value_of(Register::R10D) == Some(regs.r10 & 0xffff_ffff),
        regs.value_of(Register::R10) == Some(regs.r10),
        regs.value_of(Register::R11L) == Some(regs.r11 & 0xff),
        regs.value_of(Register::R11W) == Some(regs.r11 & 0xffff),
        regs.value_of(Register::R11D) == Some(regs.r11 & 0xffff_ffff),
        regs.value_of(Register::R11) == Some(regs.r11),
        regs.value_of(Register::R12L) == Some(regs.r12 & 0xff),
        regs.value_of(Register::R12W) == Some(regs.r12 & 0xffff),
        regs.value_of(Register::R12D) == Some(regs.r12 & 0xffff_ffff),
        regs.value_of(Register::R12) == Some(regs.r12),
        regs.value_of(Register::R13L) == Some(regs.r13 & 0xff),
        regs.value_of(Register::R13W) == Some(regs.r13 & 0xffff),
        regs.value_of(Register::R13D) == Some(regs.r13 & 0xffff_ffff),
        regs.value_of(Register::R13) == Some(regs.r13),
        regs.value_of(Register::R14L) == Some(regs.r14 & 0xff),
        regs.value_of(Register::R14W) == Some(regs.r14 & 0xffff),
        regs.value_of(Register::R14D) == Some(regs.r14 & 0xffff_ffff),
        regs.value_of(Register::R14) == Some(regs.r14),
        regs.value_of(Register::R15L) == Some(regs.r15 & 0xff),
        regs.value_of(Register::R15W) == Some(regs.r15 & 0xffff),
        regs.value_of(Register::R15D) == Some(regs.r15 & 0xffff_ffff),
        regs.value_of(Register::R15) == Some(regs.r15),
        regs.value_of(Register::AH) == Some((regs.rax >> 8) & 0xff),
        regs.value_of(Register::BH) == Some((regs.rbx >> 8) & 0xff),
        regs.value_of(Register::CH) == Some((regs.rcx >> 8) & 0xff),
        regs.value_of(Register::DH) == Some((regs.rdx >> 8) & 0xff),
        regs.value_of(Register::EIP) == Some(regs.rip & 0xffff_ffff),
        regs.value_of(Register::RIP) == Some(regs.rip),
{
}

/// The stack, code, data and extra segments have the base address zero,
/// whatever the register file holds.
pub proof fn lemma_flat_segments(regs: RegisterFile)
    ensures
        regs.value_of(Register::SS) == Some(0u64),
        regs.value_of(Register::CS) == Some(0u64),
        regs.value_of(Register::DS) == Some(0u64),
        regs.value_of(Register::ES) == Some(0u64),
{
}

/// `FS` and `GS` stand for their base addresses.
pub proof fn lemma_thread_segments(regs: RegisterFile)
    ensures
        regs.value_of(Register::FS) == Some(regs.fs_base),
        regs.value_of(Register::GS) == Some(regs.gs_base),
{
}

/// A register has a value exactly if it is tracked. The x87, vector, mask,
/// control, debug, test and bound registers are not.
pub proof fn lemma_untracked_registers(regs: RegisterFile, reg: Register)
    ensures
        regs.value_of(reg) is Some <==> is_tracked(reg),
        !is_tracked(Register::None),
        !is_tracked(Register::ST0),
        !is_tracked(Register::MM0),
        !is_tracked(Register::XMM0),
        !is_tracked(Register::YMM0),
        !is_tracked(Register::ZMM0),
        !is_tracked(Register::K0),
        !is_tracked(Register::CR0),
        !is_tracked(Register::DR0),
        !is_tracked(Register::TR0),
        !is_tracked(Register::BND0),
{
}

} // verus!
