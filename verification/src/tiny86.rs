//! The Tiny86 packing: a fixed-width, big-endian serialization of trace steps.

use crate::registers::RegisterFile;
use crate::trace::{MemoryHint, MemoryHintView, MemoryMask, MemoryOp, Step, StepView};
use vstd::prelude::*;

verus! {

/// The number of instruction bytes in a serialized step.
pub const TINY86_MAX_INSTR_LEN: usize = 12;

/// The number of data bytes in a serialized memory hint.
pub const TINY86_MAX_HINT_DATA_LEN: usize = 4;

/// The number of memory hints in a serialized step.
pub const TINY86_MAX_HINTS: usize = 2;

/// The byte that pads the instruction field (`NOP`).
pub const TINY86_INSTR_PAD: u8 = 0x90;

/// An invariant of the Tiny86 format that a value breaks.
#[derive(Clone, Copy, Debug, PartialEq, Eq, Structural)]
pub enum Tiny86Error {
    /// The step's instruction has this many bytes, more than twelve.
    InstructionTooLong(usize),
    /// The hint carries this many data bytes, more than four.
    HintDataTooLong(usize),
    /// The step has more than two hints.
    TooManyHints,
}

/// `n` zero bytes.
pub open spec fn zeros(n: nat) -> Seq<u8> {
    Seq::new(n, |i: int| 0u8)
}

/// The low 8 bits of `v`, as a byte.
pub open spec fn byte_of(v: u64) -> u8 {
    (v & 0xff) as u8
}

/// The low 32 bits of `v` as four bytes, most significant first.
pub open spec fn be32(v: u64) -> Seq<u8> {
    seq![byte_of(v >> 24), byte_of(v >> 16), byte_of(v >> 8), byte_of(v)]
}

/// The direction bit of a hint: `0` for a read, `1` for a write.
pub open spec fn operation_bit(operation: MemoryOp) -> nat {
    match operation {
        MemoryOp::Read => 0,
        MemoryOp::Write => 1,
    }
}

/// The two-bit width field of a hint: the binary logarithm of the width.
///
/// The field has room for all four widths only in this form: a width of
/// eight bytes is 3 here, and its byte count would not fit in two bits.
pub open spec fn mask_bits(mask: MemoryMask) -> nat {
    match mask {
        MemoryMask::Byte => 0,
        MemoryMask::Word => 1,
        MemoryMask::DWord => 2,
        MemoryMask::QWord => 3,
    }
}

/// The first byte of a serialized hint.
///
/// ```text
/// |  7  |  6     5     4     3  |  2  |  1     0  |
/// |  1  |       reserved        | r/w |   width   |
/// ```
///
/// The high bit is always 1, to indicate a valid memory hint.
pub open spec fn packed(operation: MemoryOp, mask: MemoryMask) -> u8 {
    (128 + 4 * operation_bit(operation) + mask_bits(mask)) as u8
}

/// `data` in the low indices of a zero-filled buffer of four bytes.
pub open spec fn padded_data(data: Seq<u8>) -> Seq<u8> {
    Seq::new(
        TINY86_MAX_HINT_DATA_LEN as nat,
        |i: int|
            if i < data.len() {
                data[i]
            } else {
                0u8
            },
    )
}

/// The operation byte and the address of a hint: what is written of it
/// before its data.
pub open spec fn hint_header(hint: MemoryHintView) -> Seq<u8> {
    seq![packed(hint.operation, hint.mask)] + be32(hint.address)
}

/// The nine bytes of a hint with at most four data bytes; of any other,
/// its header alone.
pub open spec fn hint_bytes(hint: MemoryHintView) -> Seq<u8> {
    if hint.data.len() <= TINY86_MAX_HINT_DATA_LEN {
        hint_header(hint) + padded_data(hint.data)
    } else {
        hint_header(hint)
    }
}

/// The forty bytes of a register file: the eight legacy general-purpose
/// registers, then the instruction pointer and the flags, each truncated to
/// 32 bits.
pub open spec fn regs_bytes(regs: RegisterFile) -> Seq<u8> {
    be32(regs.rax) + be32(regs.rbx) + be32(regs.rcx) + be32(regs.rdx) + be32(regs.rsi) + be32(
        regs.rdi,
    ) + be32(regs.rsp) + be32(regs.rbp) + be32(regs.rip) + be32(regs.rflags)
}

/// The twelve bytes of an instruction of at most twelve bytes: the
/// instruction reversed, behind the `NOP`s that pad it.
pub open spec fn instr_bytes(instr: Seq<u8>) -> Seq<u8> {
    Seq::new(
        TINY86_MAX_INSTR_LEN as nat,
        |i: int|
            if TINY86_MAX_INSTR_LEN - 1 - i < instr.len() {
                instr[TINY86_MAX_INSTR_LEN - 1 - i]
            } else {
                TINY86_INSTR_PAD
            },
    )
}

/// The bytes of the hint slot `slot` of a step: the hint where the step has
/// one there, and nine zero bytes where it has none.
pub open spec fn slot_bytes(hints: Seq<MemoryHintView>, slot: int) -> Seq<u8> {
    if 0 <= slot < hints.len() {
        hint_bytes(hints[slot])
    } else {
        zeros(9)
    }
}

/// Whether the hint slot `slot` of a step can be written in full.
pub open spec fn slot_fits(hints: Seq<MemoryHintView>, slot: int) -> bool {
    0 <= slot < hints.len() ==> hints[slot].data.len() <= TINY86_MAX_HINT_DATA_LEN
}

/// A value with a Tiny86 serialization of fixed size.
pub trait Tiny86Write {
    /// The number of bytes in the serialization of any value of this type.
    spec fn spec_serialized_size() -> nat;

    /// The invariant of the format that this value breaks, if any.
    spec fn failure(&self) -> Option<Tiny86Error>;

    /// The bytes that `tiny86_write` emits for this value: its serialization
    /// where it breaks no invariant, and otherwise what precedes the field
    /// at which writing stops.
    spec fn encoding(&self) -> Seq<u8>;

    /// A value that breaks no invariant serializes to exactly
    /// `spec_serialized_size()` bytes.
    proof fn lemma_encoding_len(&self)
        requires
            self.failure() is None,
        ensures
            self.encoding().len() == Self::spec_serialized_size(),
    ;

    /// The number of bytes in the serialization of any value of this type.
    fn serialized_size() -> (n: usize)
        ensures
            n == Self::spec_serialized_size(),
    ;

    /// Appends an all-zero payload of the serialized size to `w`.
    fn pad_write(w: &mut Vec<u8>) -> (r: Result<(), Tiny86Error>)
        ensures
            r is Ok,
            final(w)@ == old(w)@ + zeros(Self::spec_serialized_size()),
    ;

    /// Appends the serialization of this value to `w`, or fails at the first
    /// field that breaks an invariant of the format.
    fn tiny86_write(&self, w: &mut Vec<u8>) -> (r: Result<(), Tiny86Error>)
        ensures
            final(w)@ == old(w)@ + self.encoding(),
            r is Ok <==> self.failure() is None,
            r is Err ==> self.failure() == Some(r->Err_0),
    ;
}

/// Appends `n` zero bytes to `w`.
fn write_zeros(w: &mut Vec<u8>, n: usize)
    ensures
        final(w)@ == old(w)@ + zeros(n as nat),
{
    let ghost before = w@;
    let mut i: usize = 0;
    while i < n
        invariant
            i <= n,
            w@ == before + zeros(i as nat),
        decreases n - i,
    {
        w.push(0u8);
        i += 1;
        assert(w@ =~= before + zeros(i as nat));
    }
}

/// The low 8 bits of `v`.
fn low_byte(v: u64) -> (b: u8)
    ensures
        b == byte_of(v),
{
    assert(v & 0xff < 256) by (bit_vector);
    (v & 0xff) as u8
}

/// Appends the low 32 bits of `v` to `w`, most significant byte first.
fn write_be32(w: &mut Vec<u8>, v: u64)
    ensures
        final(w)@ == old(w)@ + be32(v),
{
    w.push(low_byte(v >> 24));
    w.push(low_byte(v >> 16));
    w.push(low_byte(v >> 8));
    w.push(low_byte(v));
    assert(w@ =~= old(w)@ + be32(v));
}

/// The first byte of the serialization of a hint.
fn pack(operation: MemoryOp, mask: MemoryMask) -> (b: u8)
    ensures
        b == packed(operation, mask),
{
    let direction: u8 = match operation {
        MemoryOp::Read => 0,
        MemoryOp::Write => 1,
    };
    let width: u8 = match mask {
        MemoryMask::Byte => 0,
        MemoryMask::Word => 1,
        MemoryMask::DWord => 2,
        MemoryMask::QWord => 3,
    };
    128 + 4 * direction + width
}

/// A Tiny86 memory hint is serialized as three fields, in order:
///
/// 0. Operation mask and width (1 byte)
/// 1. Address (4 bytes)
/// 2. Data (4 bytes)
impl Tiny86Write for MemoryHint {
    open spec fn spec_serialized_size() -> nat {
        9
    }

    open spec fn failure(&self) -> Option<Tiny86Error> {
        if self.data@.len() > TINY86_MAX_HINT_DATA_LEN {
            Some(Tiny86Error::HintDataTooLong(self.data@.len() as usize))
        } else {
            None
        }
    }

    open spec fn encoding(&self) -> Seq<u8> {
        hint_bytes(self@)
    }

    proof fn lemma_encoding_len(&self) {
    }

    fn serialized_size() -> (n: usize) {
        9
    }

    fn pad_write(w: &mut Vec<u8>) -> (r: Result<(), Tiny86Error>) {
        write_zeros(w, Self::serialized_size());
        Ok(())
    }

    fn tiny86_write(&self, w: &mut Vec<u8>) -> (r: Result<(), Tiny86Error>) {
        let ghost before = w@;
        w.push(pack(self.operation, self.mask));
        write_be32(w, self.address);
        assert(w@ =~= before + hint_header(self@));

        if self.data.len() > TINY86_MAX_HINT_DATA_LEN {
            return Err(Tiny86Error::HintDataTooLong(self.data.len()));
        }
        // Four bytes are reserved for the hint's data, but there could be
        // less. Any remaining bytes are zeroes.

        let ghost header = w@;
        let mut i: usize = 0;
        while i < TINY86_MAX_HINT_DATA_LEN
            invariant
                i <= TINY86_MAX_HINT_DATA_LEN,
                self.data@.len() <= TINY86_MAX_HINT_DATA_LEN,
                w@ == header + padded_data(self.data@).take(i as int),
            decreases TINY86_MAX_HINT_DATA_LEN - i,
        {
            let byte: u8 = if i < self.data.len() {
                self.data[i]
            } else {
                0
            };
            w.push(byte);
            i += 1;
            assert(w@ =~= header + padded_data(self.data@).take(i as int));
        }
        assert(w@ =~= before + hint_bytes(self@));
        Ok(())
    }
}

/// A Tiny86 register file is serialized as 10 fields:
///
/// * 8 GPRs (each 4 bytes)
/// * EIP (4 bytes)
/// * EFLAGS (4 bytes)
impl Tiny86Write for RegisterFile {
    open spec fn spec_serialized_size() -> nat {
        40
    }

    open spec fn failure(&self) -> Option<Tiny86Error> {
        None
    }

    open spec fn encoding(&self) -> Seq<u8> {
        regs_bytes(*self)
    }

    proof fn lemma_encoding_len(&self) {
    }

    fn serialized_size() -> (n: usize) {
        40
    }

    fn pad_write(w: &mut Vec<u8>) -> (r: Result<(), Tiny86Error>) {
        write_zeros(w, Self::serialized_size());
        Ok(())
    }

    fn tiny86_write(&self, w: &mut Vec<u8>) -> (r: Result<(), Tiny86Error>) {
        // GPRs.
        write_be32(w, self.rax);
        write_be32(w, self.rbx);
        write_be32(w, self.rcx);
        write_be32(w, self.rdx);
        write_be32(w, self.rsi);
        write_be32(w, self.rdi);
        write_be32(w, self.rsp);
        write_be32(w, self.rbp);

        // EIP and EFLAGS.
        write_be32(w, self.rip);
        write_be32(w, self.rflags);

        assert(w@ =~= old(w)@ + regs_bytes(*self));
        Ok(())
    }
}

/// The invariant of the format that a step breaks, if any: the first of an
/// instruction of more than twelve bytes, more than two hints, and a hint of
/// more than four data bytes.
pub open spec fn step_failure(step: StepView) -> Option<Tiny86Error> {
    if step.instr.len() > TINY86_MAX_INSTR_LEN {
        Some(Tiny86Error::InstructionTooLong(step.instr.len() as usize))
    } else if step.hints.len() > TINY86_MAX_HINTS {
        Some(Tiny86Error::TooManyHints)
    } else if !slot_fits(step.hints, 0) {
        Some(Tiny86Error::HintDataTooLong(step.hints[0].data.len() as usize))
    } else if !slot_fits(step.hints, 1) {
        Some(Tiny86Error::HintDataTooLong(step.hints[1].data.len() as usize))
    } else {
        None
    }
}

/// The seventy bytes of a step that breaks no invariant: its two hint
/// slots, its register file and its instruction, in this order. Of a step
/// that breaks one, the bytes up to and including the header of the hint at
/// which writing stops.
pub open spec fn step_bytes(step: StepView) -> Seq<u8> {
    if step.instr.len() > TINY86_MAX_INSTR_LEN || step.hints.len() > TINY86_MAX_HINTS {
        Seq::empty()
    } else if !slot_fits(step.hints, 0) {
        slot_bytes(step.hints, 0)
    } else if !slot_fits(step.hints, 1) {
        slot_bytes(step.hints, 0) + slot_bytes(step.hints, 1)
    } else {
        slot_bytes(step.hints, 0) + slot_bytes(step.hints, 1) + regs_bytes(step.regs)
            + instr_bytes(step.instr)
    }
}

/// Appends the twelve instruction bytes of a step to `w`.
fn write_instr(w: &mut Vec<u8>, instr: &Vec<u8>)
    requires
        instr@.len() <= TINY86_MAX_INSTR_LEN,
    ensures
        final(w)@ == old(w)@ + instr_bytes(instr@),
{
    let ghost before = w@;
    let mut i: usize = 0;
    while i < TINY86_MAX_INSTR_LEN
        invariant
            i <= TINY86_MAX_INSTR_LEN,
            w@ == before + instr_bytes(instr@).take(i as int),
        decreases TINY86_MAX_INSTR_LEN - i,
    {
        let at: usize = TINY86_MAX_INSTR_LEN - 1 - i;
        let byte: u8 = if at < instr.len() {
            instr[at]
        } else {
            TINY86_INSTR_PAD
        };
        w.push(byte);
        i += 1;
        assert(w@ =~= before + instr_bytes(instr@).take(i as int));
    }
    assert(w@ =~= before + instr_bytes(instr@));
}

/// A Tiny86 trace step is serialized as:
///
/// * The raw instruction bytes (padded out to a maximum of 12 using NOPs)
/// * The register file
/// * Two memory hints (one or more of which may be blank)
///
/// Observe that the order of serialization below is the reverse of the above,
/// since these traces are consumed as bits starting with the instruction
/// at bit 0. Observe also that multi-byte fields are in big-endian order,
/// since that's what the circuit uses internally.
impl Tiny86Write for Step {
    open spec fn spec_serialized_size() -> nat {
        70
    }

    open spec fn failure(&self) -> Option<Tiny86Error> {
        step_failure(self@)
    }

    open spec fn encoding(&self) -> Seq<u8> {
        step_bytes(self@)
    }

    proof fn lemma_encoding_len(&self) {
    }

    fn serialized_size() -> (n: usize) {
        TINY86_MAX_INSTR_LEN + RegisterFile::serialized_size() + (MemoryHint::serialized_size()
            * 2)
    }

    fn pad_write(w: &mut Vec<u8>) -> (r: Result<(), Tiny86Error>) {
        let _ = MemoryHint::pad_write(w);
        let _ = MemoryHint::pad_write(w);
        let _ = RegisterFile::pad_write(w);
        write_zeros(w, TINY86_MAX_INSTR_LEN);
        assert(w@ =~= old(w)@ + zeros(70));
        Ok(())
    }

    fn tiny86_write(&self, w: &mut Vec<u8>) -> (r: Result<(), Tiny86Error>) {
        let ghost before = w@;
        if self.instr.len() > TINY86_MAX_INSTR_LEN {
            assert(w@ =~= before + step_bytes(self@));
            return Err(Tiny86Error::InstructionTooLong(self.instr.len()));
        }
        if self.hints.len() > TINY86_MAX_HINTS {
            assert(w@ =~= before + step_bytes(self@));
            return Err(Tiny86Error::TooManyHints);
        }
        if self.hints.len() >= 1 {
            match self.hints[0].tiny86_write(w) {
                Ok(()) => {},
                Err(e) => {
                    return Err(e);
                },
            }
        } else {
            let _ = MemoryHint::pad_write(w);
        }
        assert(w@ =~= before + slot_bytes(self@.hints, 0));
        if self.hints.len() >= 2 {
            match self.hints[1].tiny86_write(w) {
                Ok(()) => {},
                Err(e) => {
                    assert(w@ =~= before + step_bytes(self@));
                    return Err(e);
                },
            }
        } else {
            let _ = MemoryHint::pad_write(w);
        }
        assert(w@ =~= before + slot_bytes(self@.hints, 0) + slot_bytes(self@.hints, 1));

        let _ = self.regs.tiny86_write(w);
        write_instr(w, &self.instr);
        assert(w@ =~= before + step_bytes(self@));
        Ok(())
    }
}

/// The binary digit of `byte` at position `k`, counted from the most
/// significant bit.
pub open spec fn bit_char(byte: u8, k: u8) -> char {
    if (byte >> (7u8 - k) as u8) & 1 == 1 {
        '1'
    } else {
        '0'
    }
}

/// The binary text of `bytes`: eight digits for each byte, most significant
/// bit first.
pub open spec fn bit_text(bytes: Seq<u8>) -> Seq<char> {
    Seq::new(8 * bytes.len(), |j: int| bit_char(bytes[j / 8], (j % 8) as u8))
}

/// A value that can be shown as the binary text of its Tiny86 serialization.
pub trait Bitstring {
    /// The binary text of this value, or the invariant of the format that
    /// it breaks.
    spec fn bits(&self) -> Result<Seq<char>, Tiny86Error>;

    /// Serializes this value and returns the bytes as binary text, most
    /// significant bit first.
    fn bitstring(&self) -> (r: Result<String, Tiny86Error>)
        ensures
            r is Ok <==> self.bits() is Ok,
            r is Ok ==> self.bits() == Ok::<Seq<char>, Tiny86Error>(r->Ok_0@),
            r is Err ==> self.bits() == Err::<Seq<char>, Tiny86Error>(r->Err_0),
    ;
}

impl<T> Bitstring for T where T: Tiny86Write {
    open spec fn bits(&self) -> Result<Seq<char>, Tiny86Error> {
        match self.failure() {
            None => Ok(bit_text(self.encoding())),
            Some(e) => Err(e),
        }
    }

    fn bitstring(&self) -> (r: Result<String, Tiny86Error>) {
        let mut buf: Vec<u8> = Vec::new();
        match self.tiny86_write(&mut buf) {
            Ok(()) => {},
            Err(e) => {
                return Err(e);
            },
        }
        assert(buf@ =~= self.encoding());

        let mut text = String::new();
        let mut i: usize = 0;
        while i < buf.len()
            invariant
                i <= buf@.len(),
                text@ == bit_text(buf@).take(8 * i),
            decreases buf@.len() - i,
        {
            let byte: u8 = buf[i];
            let mut k: u8 = 0;
            while k < 8
                invariant
                    i < buf@.len(),
                    k <= 8,
                    byte == buf@[i as int],
                    text@ == bit_text(buf@).take(8 * i + k),
                decreases 8 - k,
            {
                proof {
                    reveal_strlit("1");
                    reveal_strlit("0");
                }
                if (byte >> (7u8 - k)) & 1 == 1 {
                    text.append("1");
                } else {
                    text.append("0");
                }
                k += 1;
                assert(text@ =~= bit_text(buf@).take(8 * i + k));
            }
            i += 1;
        }
        assert(text@ =~= bit_text(buf@));
        Ok(text)
    }
}

} // verus!
