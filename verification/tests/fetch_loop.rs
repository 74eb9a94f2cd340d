use emu6::Xlen;
use emu6::error::Error;
use emu6::exec::Execute;
use emu6::fetch::Fetch;
use emu6::fetch::FetchError;
use emu6::fetch::Instruction;
use emu6::fetch::RV32I;
use emu6::mem64::Config;
use emu6::mem64::Endian;
use emu6::mem64::MemError;
use emu6::mem64::Physical;
use emu6::mem64::Protect;
use emu6::size::Usize;

fn program_mem(base: u64, words: &[u8]) -> Physical {
    let mut mem = Physical::new();
    mem.push_owned(
        Config {
            lo: base,
            hi: base + 0x1000,
            protect: Protect { read: true, write: true, execute: true },
            endian: Endian::Little,
        },
        words.to_vec(),
    );
    mem
}

#[test]
fn fetch_decodes_a_32_bit_word_and_advances_by_four() {
    // addi x1, x0, 5 encoded little-endian.
    let w: u32 = (5 << 20) | (1 << 7) | 0b0010011;
    let mem = program_mem(0x1000, &w.to_le_bytes());
    let fetch = Fetch::new(Xlen::X64);
    let (ins, pc_nxt) = fetch.next_instruction(&mem, Usize::U64(0x1000)).unwrap();
    assert!(matches!(ins, Instruction::RV32I(RV32I::Addi(_))));
    assert_eq!(pc_nxt, Usize::U64(0x1004));
}

#[test]
fn fetch_decodes_a_compressed_word_and_advances_by_two() {
    // c.nop = 0x0001
    let mem = program_mem(0x1000, &[0x01, 0x00]);
    let fetch = Fetch::new(Xlen::X64);
    let (ins, pc_nxt) = fetch.next_instruction(&mem, Usize::U64(0x1000)).unwrap();
    assert!(matches!(ins, Instruction::RVC(_)));
    assert_eq!(pc_nxt, Usize::U64(0x1002));
}

#[test]
fn fetch_rejects_long_encodings() {
    // Low five bits all ones announce an instruction of 48 bits or more.
    let mem = program_mem(0x1000, &[0x3F, 0x00]);
    let fetch = Fetch::new(Xlen::X64);
    let r = fetch.next_instruction(&mem, Usize::U64(0x1000));
    assert_eq!(
        r,
        Err(Error::Fetch(FetchError::InstructionLength { addr: Usize::U64(0x1000) }))
    );
}

#[test]
fn fetch_reports_illegal_words_with_their_bits() {
    // An unassigned opcode with 32-bit length selection bits.
    let mem = program_mem(0x1000, &[0x57, 0x00, 0x00, 0x00]);
    let fetch = Fetch::new(Xlen::X64);
    let r = fetch.next_instruction(&mem, Usize::U64(0x1000));
    assert_eq!(
        r,
        Err(
            Error::Fetch(
                FetchError::IllegalInstruction32 { addr: Usize::U64(0x1000), ins: 0x57 },
            ),
        )
    );
}

#[test]
fn fetch_treats_all_ones_as_an_overlong_encoding() {
    // 0xFFFF...: low two bits 11 and bits 4:2 all ones announce an
    // instruction longer than 32 bits, which this core rejects.
    let mem = program_mem(0x1000, &[0xFF, 0xFF, 0xFF, 0xFF]);
    let fetch = Fetch::new(Xlen::X64);
    let r = fetch.next_instruction(&mem, Usize::U64(0x1000));
    assert_eq!(
        r,
        Err(Error::Fetch(FetchError::InstructionLength { addr: Usize::U64(0x1000) }))
    );
}

#[test]
fn fetch_from_unmapped_memory_is_no_memory() {
    let mem = Physical::new();
    let fetch = Fetch::new(Xlen::X64);
    let r = fetch.next_instruction(&mem, Usize::U64(0x1000));
    assert_eq!(r, Err(Error::Mem64(MemError::NoMemory { addr: 0x1000 })));
}

#[test]
fn fetch_execute_loop_runs_a_small_program() {
    // addi x1, x0, 5; addi x2, x1, 7
    let w1: u32 = (5 << 20) | (1 << 7) | 0b0010011;
    let w2: u32 = (7 << 20) | (1 << 15) | (2 << 7) | 0b0010011;
    let mut bytes = Vec::new();
    bytes.extend_from_slice(&w1.to_le_bytes());
    bytes.extend_from_slice(&w2.to_le_bytes());
    let mut mem = program_mem(0x1000, &bytes);
    let fetch = Fetch::new(Xlen::X64);
    let mut ex = Execute::new(Xlen::X64);
    let mut pc = Usize::U64(0x1000);
    for _ in 0..2 {
        let (ins, mut pc_nxt) = fetch.next_instruction(&mem, pc).unwrap();
        ex.execute(&mut mem, ins, pc, &mut pc_nxt).unwrap();
        pc = pc_nxt;
    }
    assert_eq!(ex.r_usize(1), Usize::U64(5));
    assert_eq!(ex.r_usize(2), Usize::U64(12));
    assert_eq!(pc, Usize::U64(0x1008));
}

#[test]
fn fetch_straddles_parcels_for_32_bit_words() {
    // A compressed nop followed by a 32-bit addi starting at offset 2.
    let w: u32 = (9 << 20) | (3 << 7) | 0b0010011;
    let mut bytes = vec![0x01, 0x00];
    bytes.extend_from_slice(&w.to_le_bytes());
    let mem = program_mem(0, &bytes);
    let fetch = Fetch::new(Xlen::X64);
    let (_, pc1) = fetch.next_instruction(&mem, Usize::U64(0)).unwrap();
    assert_eq!(pc1, Usize::U64(2));
    let (ins, pc2) = fetch.next_instruction(&mem, pc1).unwrap();
    assert!(matches!(ins, Instruction::RV32I(RV32I::Addi(_))));
    assert_eq!(pc2, Usize::U64(6));
}
