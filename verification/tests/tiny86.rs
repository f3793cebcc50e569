use mttn::registers::RegisterFile;
use mttn::tiny86::{Bitstring, Tiny86Error, Tiny86Write};
use mttn::trace::{MemoryHint, MemoryMask, MemoryOp, Step};

const TINY86_MAX_INSTR_LEN: usize = 12;

fn dummy_word_hint() -> MemoryHint {
    MemoryHint {
        address: 0xababababcdcdcdcd,
        operation: MemoryOp::Write,
        mask: MemoryMask::Word,
        data: vec![0xcc, 0xcc],
    }
}

fn dummy_dword_hint() -> MemoryHint {
    MemoryHint {
        address: 0xababababcdcdcdcd,
        operation: MemoryOp::Write,
        mask: MemoryMask::DWord,
        data: vec![0x41, 0x41, 0x41, 0x41],
    }
}

fn dummy_regfile() -> RegisterFile {
    RegisterFile {
        rax: 0x11111111,
        rbx: 0x22222222,
        rcx: 0x33333333,
        rdx: 0x44444444,
        rsi: 0x55555555,
        rdi: 0x66666666,
        rsp: 0x77777777,
        rbp: 0x88888888,
        rip: 0x99999999,
        rflags: 0xaaaaaaaa,
        ..Default::default()
    }
}

fn dummy_step(num_hints: usize) -> Step {
    let hints = vec![dummy_dword_hint(); num_hints];

    Step {
        instr: vec![0xc3],
        regs: dummy_regfile(),
        hints: hints,
    }
}

fn dword_hint_asserts(hint_bytes: &[u8]) {
    assert_eq!(
        &hint_bytes[..MemoryHint::serialized_size()],
        vec![0b10000110, 0xcd, 0xcd, 0xcd, 0xcd, 0x41, 0x41, 0x41, 0x41]
    );
}

fn regfile_asserts(regfile_bytes: &[u8]) {
    // These values are consistent with dummy_regfile.
    assert_eq!(&regfile_bytes[..4], vec![0x11; 4]);
    assert_eq!(&regfile_bytes[4..8], vec![0x22; 4]);
    assert_eq!(&regfile_bytes[8..12], vec![0x33; 4]);
    assert_eq!(&regfile_bytes[12..16], vec![0x44; 4]);
    assert_eq!(&regfile_bytes[16..20], vec![0x55; 4]);
    assert_eq!(&regfile_bytes[20..24], vec![0x66; 4]);
    assert_eq!(&regfile_bytes[24..28], vec![0x77; 4]);
    assert_eq!(&regfile_bytes[28..32], vec![0x88; 4]);
    assert_eq!(&regfile_bytes[32..36], vec![0x99; 4]);
    assert_eq!(&regfile_bytes[36..40], vec![0xaa; 4]);
}

#[test]
fn test_write_memoryhint() {
    {
        let hint = dummy_word_hint();
        let mut buf = vec![];

        hint.tiny86_write(&mut buf)
            .expect("tiny86 hint serialization failed");

        assert_eq!(buf.len(), MemoryHint::serialized_size());

        assert_eq!(
            buf,
            vec![0b10000101, 0xcd, 0xcd, 0xcd, 0xcd, 0xcc, 0xcc, 0x00, 0x00]
        );
    }

    {
        let hint = dummy_dword_hint();
        let mut buf = vec![];

        hint.tiny86_write(&mut buf)
            .expect("tiny86 hint serialization failed");

        assert_eq!(buf.len(), MemoryHint::serialized_size());

        dword_hint_asserts(&buf);
    }
}

#[test]
fn test_write_regfile() {
    let regs = dummy_regfile();
    let mut buf = vec![];

    regs.tiny86_write(&mut buf)
        .expect("tiny86 regfile serialization failed");

    assert_eq!(buf.len(), RegisterFile::serialized_size());

    regfile_asserts(&buf);
}

#[test]
fn test_write_step() {
    // No hints: succeeds, hints are zeroed
    {
        let step = dummy_step(0);
        let mut buf = vec![];

        step.tiny86_write(&mut buf)
            .expect("tiny86 step serialization failed");

        assert_eq!(buf.len(), Step::serialized_size());

        // First, two empty memory hints.
        let mut off = MemoryHint::serialized_size() * 2;
        assert_eq!(&buf[0..off], vec![0; off]);

        // Next, the register file.
        regfile_asserts(&buf[off..]);
        off += RegisterFile::serialized_size();

        // The instruction is a RET, padded out with NOPs.
        assert_eq!(*buf.last().unwrap(), 0xc3);
        assert_eq!(
            &buf[off..(off + TINY86_MAX_INSTR_LEN - 1)],
            vec![0x90; TINY86_MAX_INSTR_LEN - 1]
        );
    }

    // One hint: first hint is filled, second is zeroed
    {
        let step = dummy_step(1);
        let mut buf = vec![];

        step.tiny86_write(&mut buf)
            .expect("tiny86 step serialization failed");

        assert_eq!(buf.len(), Step::serialized_size());

        // One memory hint, followed by empty padding.
        dword_hint_asserts(&buf);
        let mut off = MemoryHint::serialized_size() * 2;
        assert_eq!(
            &buf[MemoryHint::serialized_size()..off],
            vec![0; MemoryHint::serialized_size()]
        );

        regfile_asserts(&buf[off..]);
        off += RegisterFile::serialized_size();

        // The instruction is a RET, padded out with NOPs.
        assert_eq!(*buf.last().unwrap(), 0xc3);
        assert_eq!(
            &buf[off..(off + TINY86_MAX_INSTR_LEN - 1)],
            vec![0x90; TINY86_MAX_INSTR_LEN - 1]
        );
    }

    // Two hints: both are filled
    {
        let step = dummy_step(2);
        let mut buf = vec![];

        step.tiny86_write(&mut buf)
            .expect("tiny86 step serialization failed");

        assert_eq!(buf.len(), Step::serialized_size());

        // Two valid memory hints.
        dword_hint_asserts(&buf);
        dword_hint_asserts(&buf[MemoryHint::serialized_size()..]);
        let mut off = MemoryHint::serialized_size() * 2;

        regfile_asserts(&buf[off..]);
        off += RegisterFile::serialized_size();

        // The instruction is a RET, padded out with NOPs.
        assert_eq!(*buf.last().unwrap(), 0xc3);
        assert_eq!(
            &buf[off..(off + TINY86_MAX_INSTR_LEN - 1)],
            vec![0x90; TINY86_MAX_INSTR_LEN - 1]
        );
    }

    // Three or more: error
    {
        let step = dummy_step(3);
        let mut buf = vec![];

        assert!(step.tiny86_write(&mut buf).is_err());
    }
}

#[test]
fn test_step_with_three_hints_writes_nothing() {
    let step = dummy_step(3);
    let mut buf = vec![0xee];
    assert_eq!(step.tiny86_write(&mut buf), Err(Tiny86Error::TooManyHints));
    assert_eq!(buf, vec![0xee]);
}

#[test]
fn test_step_with_long_instruction_fails() {
    let mut step = dummy_step(0);
    step.instr = vec![0x90; 13];
    let mut buf = vec![];
    assert_eq!(
        step.tiny86_write(&mut buf),
        Err(Tiny86Error::InstructionTooLong(13))
    );
    assert!(buf.is_empty());

    step.instr = vec![0x66; 12];
    step.tiny86_write(&mut buf).expect("twelve bytes fit");
    assert_eq!(&buf[58..], vec![0x66; 12]);
}

#[test]
fn test_instruction_bytes_are_reversed() {
    let mut step = dummy_step(0);
    step.instr = vec![0xb8, 0x41, 0x42, 0x43, 0x44];
    let mut buf = vec![];
    step.tiny86_write(&mut buf).expect("five bytes fit");
    assert_eq!(
        &buf[58..],
        vec![0x90, 0x90, 0x90, 0x90, 0x90, 0x90, 0x90, 0x44, 0x43, 0x42, 0x41, 0xb8]
    );
}

#[test]
fn test_hint_with_long_data_stops_after_header() {
    let mut hint = dummy_dword_hint();
    hint.data = vec![1, 2, 3, 4, 5];
    let mut buf = vec![];
    assert_eq!(
        hint.tiny86_write(&mut buf),
        Err(Tiny86Error::HintDataTooLong(5))
    );
    assert_eq!(buf, vec![0b10000110, 0xcd, 0xcd, 0xcd, 0xcd]);

    let step = Step {
        instr: vec![0xc3],
        regs: dummy_regfile(),
        hints: vec![dummy_word_hint(), hint],
    };
    let mut buf = vec![];
    assert_eq!(
        step.tiny86_write(&mut buf),
        Err(Tiny86Error::HintDataTooLong(5))
    );
    assert_eq!(buf.len(), 14);
}

#[test]
fn test_hint_packed_byte() {
    let mut hint = MemoryHint {
        address: 0x0102_0304,
        operation: MemoryOp::Read,
        mask: MemoryMask::Byte,
        data: vec![0xaa],
    };
    let mut buf = vec![];
    hint.tiny86_write(&mut buf).expect("a byte read fits");
    assert_eq!(buf, vec![0b10000000, 1, 2, 3, 4, 0xaa, 0, 0, 0]);

    hint.mask = MemoryMask::QWord;
    hint.operation = MemoryOp::Write;
    hint.data = vec![];
    let mut buf = vec![];
    hint.tiny86_write(&mut buf).expect("an empty hint fits");
    assert_eq!(buf, vec![0b10000111, 1, 2, 3, 4, 0, 0, 0, 0]);
}

#[test]
fn test_pad_write_emits_zeros() {
    let mut buf = vec![7u8];
    MemoryHint::pad_write(&mut buf).expect("padding never fails");
    assert_eq!(buf.len(), 1 + MemoryHint::serialized_size());
    RegisterFile::pad_write(&mut buf).expect("padding never fails");
    Step::pad_write(&mut buf).expect("padding never fails");
    assert_eq!(buf.len(), 1 + 9 + 40 + 70);
    assert_eq!(buf[0], 7);
    assert!(buf[1..].iter().all(|b| *b == 0));
}

#[test]
fn test_serialized_sizes() {
    assert_eq!(MemoryHint::serialized_size(), 9);
    assert_eq!(RegisterFile::serialized_size(), 40);
    assert_eq!(Step::serialized_size(), 70);
}

#[test]
fn test_encoded_length_is_serialized_size() {
    for n in 0..3 {
        let mut buf = vec![];
        dummy_step(n).tiny86_write(&mut buf).expect("step fits");
        assert_eq!(buf.len(), Step::serialized_size());
    }
}

#[test]
fn test_bitstring() {
    let hint = dummy_word_hint();
    assert_eq!(
        hint.bitstring().expect("hint fits"),
        "100001011100110111001101110011011100110111001100110011000000000000000000"
    );
    let text = dummy_step(0).bitstring().expect("step fits");
    assert_eq!(text.len(), 70 * 8);
    assert!(text.ends_with("11000011"));
    assert_eq!(dummy_step(3).bitstring(), Err(Tiny86Error::TooManyHints));
}
