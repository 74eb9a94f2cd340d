use emu6::Xlen;
use emu6::error::Error;
use emu6::exec::ExecError;
use emu6::exec::Execute;
use emu6::fetch::CIType;
use emu6::fetch::CJType;
use emu6::fetch::CsrType;
use emu6::fetch::IType;
use emu6::fetch::Instruction;
use emu6::fetch::JType;
use emu6::fetch::RV32I;
use emu6::fetch::RV64I;
use emu6::fetch::RVC;
use emu6::fetch::RVZicsr;
use emu6::fetch::SType;
use emu6::imm::Imm;
use emu6::mem64::Config;
use emu6::mem64::Endian;
use emu6::mem64::MemError;
use emu6::mem64::Physical;
use emu6::mem64::Protect;
use emu6::size::Usize;

fn rwx_mem(lo: u64, hi: u64) -> Physical {
    let mut mem = Physical::new();
    mem.push_zeroed(
        Config {
            lo,
            hi,
            protect: Protect { read: true, write: true, execute: true },
            endian: Endian::Little,
        },
    );
    mem
}

#[test]
fn store_then_load_doubleword_round_trip() {
    // An owned read-write-execute section at [0x1000, 0x2000), zeroed.
    let mut mem = rwx_mem(0x1000, 0x2000);
    let mut ex = Execute::new(Xlen::X64);
    ex.w_usize(1, Usize::U64(0x1234_5678_9ABC_DEF0));
    ex.w_usize(3, Usize::U64(0x1000));
    let mut pc_nxt = Usize::U64(0x1004);
    // sd x1, 16(x3)
    let sd = Instruction::RV64I(
        RV64I::Sd(SType { rs1: 3, rs2: 1, funct3: 3, imm: Imm::new(16, 12) }),
    );
    ex.execute(&mut mem, sd, Usize::U64(0x1000), &mut pc_nxt).unwrap();
    assert_eq!(mem.read_u64(0x1010), Ok(0x1234_5678_9ABC_DEF0));
    // ld x2, 16(x3)
    let ld = Instruction::RV64I(
        RV64I::Ld(IType { rd: 2, rs1: 3, funct3: 3, imm: Imm::new(16, 12) }),
    );
    ex.execute(&mut mem, ld, Usize::U64(0x1004), &mut pc_nxt).unwrap();
    assert_eq!(ex.r_usize(2), Usize::U64(0x1234_5678_9ABC_DEF0));
}

#[test]
fn srai_fills_the_sign_bit() {
    // XLEN=X32, x5 = 0xFFFF_FFFE: srai x6, x5, 1 gives all ones.
    let mut mem = rwx_mem(0, 0x100);
    let mut ex = Execute::new(Xlen::X32);
    ex.w_usize(5, Usize::U32(0xFFFF_FFFE));
    let mut pc_nxt = Usize::U32(4);
    let srai = Instruction::RV32I(
        RV32I::Srai(IType { rd: 6, rs1: 5, funct3: 5, imm: Imm::new(1, 12) }),
    );
    ex.execute(&mut mem, srai, Usize::U32(0), &mut pc_nxt).unwrap();
    assert_eq!(ex.r_usize(6), Usize::U32(0xFFFF_FFFF));
}

#[test]
fn addiw_sign_extends_the_32_bit_result() {
    let mut mem = rwx_mem(0, 0x100);
    let mut ex = Execute::new(Xlen::X64);
    let addiw = Instruction::RV64I(
        RV64I::Addiw(IType { rd: 8, rs1: 7, funct3: 0, imm: Imm::new(1, 12) }),
    );
    let mut pc_nxt = Usize::U64(4);

    ex.w_usize(7, Usize::U64(0x0000_0000_0000_00FF));
    ex.execute(&mut mem, addiw, Usize::U64(0), &mut pc_nxt).unwrap();
    assert_eq!(ex.r_usize(8), Usize::U64(0x0000_0000_0000_0100));

    ex.w_usize(7, Usize::U64(0x0000_0000_7FFF_FFFF));
    ex.execute(&mut mem, addiw, Usize::U64(0), &mut pc_nxt).unwrap();
    assert_eq!(ex.r_usize(8), Usize::U64(0xFFFF_FFFF_8000_0000));
}

#[test]
fn jal_links_and_redirects() {
    // PC = 0x1000: jal x1, +0x24 leaves x1 = 0x1004 and goes to 0x1024.
    let mut mem = rwx_mem(0, 0x100);
    let mut ex = Execute::new(Xlen::X64);
    let mut pc_nxt = Usize::U64(0x1004);
    let jal = Instruction::RV32I(RV32I::Jal(JType { rd: 1, imm: Imm::new(0x24, 21) }));
    ex.execute(&mut mem, jal, Usize::U64(0x1000), &mut pc_nxt).unwrap();
    assert_eq!(pc_nxt, Usize::U64(0x1024));
    assert_eq!(ex.r_usize(1), Usize::U64(0x1004));
}

#[test]
fn compressed_jal_links_past_the_short_word() {
    // C.JAL +0x24 at PC = 0x1000 on a 32-bit machine: x1 = 0x1002.
    let mut mem = rwx_mem(0, 0x100);
    let mut ex = Execute::new(Xlen::X32);
    let mut pc_nxt = Usize::U32(0x1002);
    let cjal = Instruction::RVC(RVC::Cjal(CJType { funct3: 1, target: Imm::new(0x24, 12) }));
    ex.execute(&mut mem, cjal, Usize::U32(0x1000), &mut pc_nxt).unwrap();
    assert_eq!(pc_nxt, Usize::U32(0x1024));
    assert_eq!(ex.r_usize(1), Usize::U32(0x1002));
}

#[test]
fn store_to_read_only_section_faults_and_changes_nothing() {
    let mut mem = Physical::new();
    mem.push_zeroed(
        Config {
            lo: 0x4000,
            hi: 0x5000,
            protect: Protect { read: true, write: false, execute: false },
            endian: Endian::Little,
        },
    );
    let mut ex = Execute::new(Xlen::X64);
    ex.w_usize(9, Usize::U64(0x4000));
    let mut pc_nxt = Usize::U64(4);
    // sw x0, 0(x9)
    let sw = Instruction::RV32I(
        RV32I::Sw(SType { rs1: 9, rs2: 0, funct3: 2, imm: Imm::new(0, 12) }),
    );
    let r = ex.execute(&mut mem, sw, Usize::U64(0), &mut pc_nxt);
    assert_eq!(r, Err(Error::Mem64(MemError::CannotWrite { addr: 0x4000 })));
    assert_eq!(mem.read_u32(0x4000), Ok(0));
}

#[test]
fn csrrw_to_fcsr_sets_the_aliased_fields() {
    // CSRRW with rd = x0, csr = FCSR, x10 = 0xE3: FCSR = 0xE3,
    // FFLAGS reads 0x03, FRM reads 0x7, no trap.
    let mut mem = rwx_mem(0, 0x100);
    let mut ex = Execute::new(Xlen::X64);
    ex.w_usize(10, Usize::U64(0x0000_00E3));
    let mut pc_nxt = Usize::U64(4);
    let csrrw = Instruction::RVZicsr(
        RVZicsr::Csrrw(CsrType { rd: 0, rs1uimm: 10, funct3: 1, csr: 3 }),
    );
    ex.execute(&mut mem, csrrw, Usize::U64(0), &mut pc_nxt).unwrap();
    assert_eq!(ex.r_csr(3), Usize::U64(0xE3));
    assert_eq!(ex.r_csr(1), Usize::U64(0x03));
    assert_eq!(ex.r_csr(2), Usize::U64(0x7));
}

#[test]
fn csrrs_sets_and_csrrc_clears_bits() {
    let mut mem = rwx_mem(0, 0x100);
    let mut ex = Execute::new(Xlen::X64);
    let mut pc_nxt = Usize::U64(4);
    // Use a plain storage slot.
    ex.w_usize(5, Usize::U64(0b1010));
    let csrrw = Instruction::RVZicsr(
        RVZicsr::Csrrw(CsrType { rd: 0, rs1uimm: 5, funct3: 1, csr: 0x340 }),
    );
    ex.execute(&mut mem, csrrw, Usize::U64(0), &mut pc_nxt).unwrap();
    assert_eq!(ex.r_csr(0x340), Usize::U64(0b1010));

    ex.w_usize(6, Usize::U64(0b0101));
    let csrrs = Instruction::RVZicsr(
        RVZicsr::Csrrs(CsrType { rd: 7, rs1uimm: 6, funct3: 2, csr: 0x340 }),
    );
    ex.execute(&mut mem, csrrs, Usize::U64(0), &mut pc_nxt).unwrap();
    assert_eq!(ex.r_usize(7), Usize::U64(0b1010));
    assert_eq!(ex.r_csr(0x340), Usize::U64(0b1111));

    let csrrc = Instruction::RVZicsr(
        RVZicsr::Csrrc(CsrType { rd: 8, rs1uimm: 6, funct3: 3, csr: 0x340 }),
    );
    ex.execute(&mut mem, csrrc, Usize::U64(0), &mut pc_nxt).unwrap();
    assert_eq!(ex.r_usize(8), Usize::U64(0b1111));
    assert_eq!(ex.r_csr(0x340), Usize::U64(0b1010));
}

#[test]
fn csr_immediate_forms_use_the_five_bit_field() {
    let mut mem = rwx_mem(0, 0x100);
    let mut ex = Execute::new(Xlen::X32);
    let mut pc_nxt = Usize::U32(4);
    let csrrwi = Instruction::RVZicsr(
        RVZicsr::Csrrwi(CsrType { rd: 0, rs1uimm: 0x1F, funct3: 5, csr: 0x341 }),
    );
    ex.execute(&mut mem, csrrwi, Usize::U32(0), &mut pc_nxt).unwrap();
    assert_eq!(ex.r_csr(0x341), Usize::U32(0x1F));
    // A zero immediate suppresses the clear.
    let csrrci = Instruction::RVZicsr(
        RVZicsr::Csrrci(CsrType { rd: 1, rs1uimm: 0, funct3: 7, csr: 0x341 }),
    );
    ex.execute(&mut mem, csrrci, Usize::U32(0), &mut pc_nxt).unwrap();
    assert_eq!(ex.r_usize(1), Usize::U32(0x1F));
    assert_eq!(ex.r_csr(0x341), Usize::U32(0x1F));
}

#[test]
fn writes_to_x0_are_dropped() {
    let mut mem = rwx_mem(0, 0x100);
    let mut ex = Execute::new(Xlen::X64);
    let mut pc_nxt = Usize::U64(4);
    // addi x0, x0, 7
    let addi = Instruction::RV32I(
        RV32I::Addi(IType { rd: 0, rs1: 0, funct3: 0, imm: Imm::new(7, 12) }),
    );
    ex.execute(&mut mem, addi, Usize::U64(0), &mut pc_nxt).unwrap();
    assert_eq!(ex.r_usize(0), Usize::U64(0));
    ex.w_usize(0, Usize::U64(0xFFFF));
    assert_eq!(ex.r_usize(0), Usize::U64(0));
}

#[test]
fn branches_compare_as_their_kind_says() {
    let mut mem = rwx_mem(0, 0x100);
    let mut ex = Execute::new(Xlen::X32);
    ex.w_usize(1, Usize::U32(0xFFFF_FFFF));  // -1 signed, max unsigned
    ex.w_usize(2, Usize::U32(1));
    let pc = Usize::U32(0x40);
    // blt x1, x2 taken (signed -1 < 1)
    let mut pc_nxt = Usize::U32(0x44);
    let blt = Instruction::RV32I(
        RV32I::Blt(emu6::fetch::BType { rs1: 1, rs2: 2, funct3: 4, imm: Imm::new(8, 12) }),
    );
    ex.execute(&mut mem, blt, pc, &mut pc_nxt).unwrap();
    assert_eq!(pc_nxt, Usize::U32(0x48));
    // bltu x1, x2 not taken (0xFFFF_FFFF > 1 unsigned)
    let mut pc_nxt2 = Usize::U32(0x44);
    let bltu = Instruction::RV32I(
        RV32I::Bltu(emu6::fetch::BType { rs1: 1, rs2: 2, funct3: 6, imm: Imm::new(8, 12) }),
    );
    ex.execute(&mut mem, bltu, pc, &mut pc_nxt2).unwrap();
    assert_eq!(pc_nxt2, Usize::U32(0x44));
}

#[test]
fn jalr_clears_the_low_bit_of_the_target() {
    let mut mem = rwx_mem(0, 0x100);
    let mut ex = Execute::new(Xlen::X64);
    ex.w_usize(5, Usize::U64(0x2001));
    let mut pc_nxt = Usize::U64(4);
    let jalr = Instruction::RV32I(
        RV32I::Jalr(IType { rd: 1, rs1: 5, funct3: 0, imm: Imm::new(2, 12) }),
    );
    ex.execute(&mut mem, jalr, Usize::U64(0), &mut pc_nxt).unwrap();
    assert_eq!(pc_nxt, Usize::U64(0x2002));
    assert_eq!(ex.r_usize(1), Usize::U64(4));
}

#[test]
fn rv64i_faults_on_a_32_bit_machine() {
    let mut mem = rwx_mem(0, 0x100);
    let mut ex = Execute::new(Xlen::X32);
    let mut pc_nxt = Usize::U32(4);
    let addw = Instruction::RV64I(
        RV64I::Addw(emu6::fetch::RType { rd: 1, rs1: 2, rs2: 3, funct3: 0, funct7: 0 }),
    );
    let r = ex.execute(&mut mem, addw, Usize::U32(0), &mut pc_nxt);
    assert_eq!(r, Err(Error::Exec(ExecError::ExtensionNotSupported)));
}

#[test]
fn floating_point_compressed_forms_fault() {
    let mut mem = rwx_mem(0, 0x100);
    let mut ex = Execute::new(Xlen::X64);
    let mut pc_nxt = Usize::U64(4);
    let cfld = Instruction::RVC(
        RVC::Cfld(emu6::fetch::CLType { rd: 8, rs1: 9, funct3: 1, imm: Imm::new(8, 8) }),
    );
    let r = ex.execute(&mut mem, cfld, Usize::U64(0), &mut pc_nxt);
    assert_eq!(r, Err(Error::Exec(ExecError::ExtensionNotSupported)));
}

#[test]
fn ecall_and_ebreak_surface_as_traps() {
    let mut mem = rwx_mem(0, 0x100);
    let mut ex = Execute::new(Xlen::X64);
    let mut pc_nxt = Usize::U64(4);
    let it = IType { rd: 0, rs1: 0, funct3: 0, imm: Imm::new(0, 12) };
    let r1 = ex.execute(&mut mem, Instruction::RV32I(RV32I::Ecall(it)), Usize::U64(0), &mut pc_nxt);
    assert_eq!(r1, Err(Error::Exec(ExecError::EnvironmentCall)));
    let r2 = ex.execute(
        &mut mem,
        Instruction::RV32I(RV32I::Ebreak(it)),
        Usize::U64(0),
        &mut pc_nxt,
    );
    assert_eq!(r2, Err(Error::Exec(ExecError::Breakpoint)));
}

#[test]
fn compressed_add_and_mv() {
    let mut mem = rwx_mem(0, 0x100);
    let mut ex = Execute::new(Xlen::X64);
    ex.w_usize(10, Usize::U64(30));
    ex.w_usize(11, Usize::U64(12));
    let mut pc_nxt = Usize::U64(4);
    let cadd = Instruction::RVC(
        RVC::Cadd(emu6::fetch::CRType { rdrs1: 10, rs2: 11, funct4: 9 }),
    );
    ex.execute(&mut mem, cadd, Usize::U64(0), &mut pc_nxt).unwrap();
    assert_eq!(ex.r_usize(10), Usize::U64(42));
    let cmv = Instruction::RVC(
        RVC::Cmv(emu6::fetch::CRType { rdrs1: 12, rs2: 10, funct4: 8 }),
    );
    ex.execute(&mut mem, cmv, Usize::U64(0), &mut pc_nxt).unwrap();
    assert_eq!(ex.r_usize(12), Usize::U64(42));
}

#[test]
fn compressed_addi16sp_adjusts_the_stack_pointer() {
    let mut mem = rwx_mem(0, 0x100);
    let mut ex = Execute::new(Xlen::X64);
    ex.w_usize(2, Usize::U64(0x1000));
    let mut pc_nxt = Usize::U64(4);
    // imm = -16: ten valid bits, payload 0x3F0
    let c16 = Instruction::RVC(
        RVC::Caddi16sp(CIType { rdrs1: 2, funct3: 3, imm: Imm::new(0x3F0, 10) }),
    );
    ex.execute(&mut mem, c16, Usize::U64(0), &mut pc_nxt).unwrap();
    assert_eq!(ex.r_usize(2), Usize::U64(0xFF0));
}

#[test]
fn lui_and_auipc() {
    let mut mem = rwx_mem(0, 0x100);
    let mut ex = Execute::new(Xlen::X64);
    let mut pc_nxt = Usize::U64(4);
    // lui x1, 0x80000 (top bit of the U-immediate): sign-extends on X64.
    let lui = Instruction::RV32I(
        RV32I::Lui(emu6::fetch::UType { rd: 1, imm: emu6::imm::Uimm::new(0x8000_0000, 32) }),
    );
    ex.execute(&mut mem, lui, Usize::U64(0), &mut pc_nxt).unwrap();
    assert_eq!(ex.r_usize(1), Usize::U64(0xFFFF_FFFF_8000_0000));
    // auipc x2, 0x1000 at pc 0x400
    let auipc = Instruction::RV32I(
        RV32I::Auipc(emu6::fetch::UType { rd: 2, imm: emu6::imm::Uimm::new(0x1000, 32) }),
    );
    ex.execute(&mut mem, auipc, Usize::U64(0x400), &mut pc_nxt).unwrap();
    assert_eq!(ex.r_usize(2), Usize::U64(0x1400));
}

#[test]
fn load_sign_and_zero_extension() {
    let mut mem = rwx_mem(0, 0x100);
    mem.write_u8(0x20, 0x80).unwrap();
    let mut ex = Execute::new(Xlen::X64);
    let mut pc_nxt = Usize::U64(4);
    let lb = Instruction::RV32I(
        RV32I::Lb(IType { rd: 1, rs1: 0, funct3: 0, imm: Imm::new(0x20, 12) }),
    );
    ex.execute(&mut mem, lb, Usize::U64(0), &mut pc_nxt).unwrap();
    assert_eq!(ex.r_usize(1), Usize::U64(0xFFFF_FFFF_FFFF_FF80));
    let lbu = Instruction::RV32I(
        RV32I::Lbu(IType { rd: 2, rs1: 0, funct3: 4, imm: Imm::new(0x20, 12) }),
    );
    ex.execute(&mut mem, lbu, Usize::U64(0), &mut pc_nxt).unwrap();
    assert_eq!(ex.r_usize(2), Usize::U64(0x80));
}

#[test]
fn sltiu_treats_the_extended_immediate_unsigned() {
    let mut mem = rwx_mem(0, 0x100);
    let mut ex = Execute::new(Xlen::X32);
    ex.w_usize(1, Usize::U32(5));
    let mut pc_nxt = Usize::U32(4);
    // sltiu x2, x1, -1: the immediate becomes the largest unsigned word.
    let sltiu = Instruction::RV32I(
        RV32I::Sltiu(IType { rd: 2, rs1: 1, funct3: 3, imm: Imm::new(0xFFF, 12) }),
    );
    ex.execute(&mut mem, sltiu, Usize::U32(0), &mut pc_nxt).unwrap();
    assert_eq!(ex.r_usize(2), Usize::U32(1));
}

#[test]
fn compressed_loads_and_stores_use_unsigned_offsets() {
    let mut mem = rwx_mem(0x1000, 0x2000);
    let mut ex = Execute::new(Xlen::X64);
    ex.w_usize(8, Usize::U64(0x1000));
    ex.w_usize(9, Usize::U64(0x0123_4567_89AB_CDEF));
    let mut pc_nxt = Usize::U64(2);
    // c.sd x9, 0x40(x8): the seven-or-more-bit offsets are zero-extended.
    let csd = Instruction::RVC(
        RVC::Csd(emu6::fetch::CSType { rs1: 8, rs2: 9, funct3: 7, imm: Imm::new(0x40, 8) }),
    );
    ex.execute(&mut mem, csd, Usize::U64(0), &mut pc_nxt).unwrap();
    assert_eq!(mem.read_u64(0x1040), Ok(0x0123_4567_89AB_CDEF));
    // c.ld x10, 0x40(x8)
    let cld = Instruction::RVC(
        RVC::Cld(emu6::fetch::CLType { rd: 10, rs1: 8, funct3: 3, imm: Imm::new(0x40, 8) }),
    );
    ex.execute(&mut mem, cld, Usize::U64(0), &mut pc_nxt).unwrap();
    assert_eq!(ex.r_usize(10), Usize::U64(0x0123_4567_89AB_CDEF));
}

#[test]
fn compressed_stack_relative_word_round_trip() {
    let mut mem = rwx_mem(0x1000, 0x2000);
    let mut ex = Execute::new(Xlen::X32);
    ex.w_usize(2, Usize::U32(0x1800));
    ex.w_usize(9, Usize::U32(0xFEED_BEEF));
    let mut pc_nxt = Usize::U32(2);
    let cswsp = Instruction::RVC(
        RVC::Cswsp(emu6::fetch::CSSType { rs2: 9, funct3: 6, imm: Imm::new(8, 8) }),
    );
    ex.execute(&mut mem, cswsp, Usize::U32(0), &mut pc_nxt).unwrap();
    assert_eq!(mem.read_u32(0x1808), Ok(0xFEED_BEEF));
    let clwsp = Instruction::RVC(
        RVC::Clwsp(CIType { rdrs1: 10, funct3: 2, imm: Imm::new(8, 8) }),
    );
    ex.execute(&mut mem, clwsp, Usize::U32(0), &mut pc_nxt).unwrap();
    assert_eq!(ex.r_usize(10), Usize::U32(0xFEED_BEEF));
}

#[test]
fn compressed_branch_takes_when_zero() {
    let mut mem = rwx_mem(0, 0x100);
    let mut ex = Execute::new(Xlen::X32);
    ex.w_usize(8, Usize::U32(0));
    let pc = Usize::U32(0x40);
    let mut pc_nxt = Usize::U32(0x42);
    let cbeqz = Instruction::RVC(
        RVC::Cbeqz(emu6::fetch::CBType { rs1: 8, funct3: 6, off: Imm::new(0x10, 9) }),
    );
    ex.execute(&mut mem, cbeqz, pc, &mut pc_nxt).unwrap();
    assert_eq!(pc_nxt, Usize::U32(0x50));
    // With a nonzero register the branch falls through.
    ex.w_usize(8, Usize::U32(7));
    let mut pc_nxt2 = Usize::U32(0x42);
    ex.execute(&mut mem, cbeqz, pc, &mut pc_nxt2).unwrap();
    assert_eq!(pc_nxt2, Usize::U32(0x42));
}

#[test]
fn compressed_shift_amount_past_32_needs_a_64_bit_machine() {
    let mut mem = rwx_mem(0, 0x100);
    let mut ex32 = Execute::new(Xlen::X32);
    let mut pc_nxt = Usize::U32(2);
    let cslli = Instruction::RVC(
        RVC::Cslli(CIType { rdrs1: 1, funct3: 0, imm: Imm::new(33, 6) }),
    );
    let r = ex32.execute(&mut mem, cslli, Usize::U32(0), &mut pc_nxt);
    assert_eq!(r, Err(Error::Exec(ExecError::ExtensionNotSupported)));

    let mut ex64 = Execute::new(Xlen::X64);
    ex64.w_usize(1, Usize::U64(1));
    let mut pc_nxt64 = Usize::U64(2);
    ex64.execute(&mut mem, cslli, Usize::U64(0), &mut pc_nxt64).unwrap();
    assert_eq!(ex64.r_usize(1), Usize::U64(1 << 33));
}

#[test]
fn stores_to_big_endian_sections_swap_bytes() {
    let mut mem = Physical::new();
    mem.push_zeroed(
        Config {
            lo: 0,
            hi: 0x100,
            protect: Protect { read: true, write: true, execute: true },
            endian: Endian::Big,
        },
    );
    let mut ex = Execute::new(Xlen::X32);
    ex.w_usize(1, Usize::U32(0x1122_3344));
    let mut pc_nxt = Usize::U32(4);
    let sw = Instruction::RV32I(
        RV32I::Sw(SType { rs1: 0, rs2: 1, funct3: 2, imm: Imm::new(0x10, 12) }),
    );
    ex.execute(&mut mem, sw, Usize::U32(0), &mut pc_nxt).unwrap();
    assert_eq!(mem.read_u8(0x10), Ok(0x11));
    assert_eq!(mem.read_u8(0x13), Ok(0x44));
    assert_eq!(mem.read_u32(0x10), Ok(0x1122_3344));
}

#[test]
fn register_alu_covers_the_logic_ops() {
    let mut mem = rwx_mem(0, 0x100);
    let mut ex = Execute::new(Xlen::X32);
    ex.w_usize(1, Usize::U32(0b1100));
    ex.w_usize(2, Usize::U32(0b1010));
    let mut pc_nxt = Usize::U32(4);
    let mk = |f3: u8, f7: u8| emu6::fetch::RType { rd: 3, rs1: 1, rs2: 2, funct3: f3, funct7: f7 };
    ex.execute(&mut mem, Instruction::RV32I(RV32I::And(mk(7, 0))), Usize::U32(0), &mut pc_nxt)
        .unwrap();
    assert_eq!(ex.r_usize(3), Usize::U32(0b1000));
    ex.execute(&mut mem, Instruction::RV32I(RV32I::Or(mk(6, 0))), Usize::U32(0), &mut pc_nxt)
        .unwrap();
    assert_eq!(ex.r_usize(3), Usize::U32(0b1110));
    ex.execute(&mut mem, Instruction::RV32I(RV32I::Xor(mk(4, 0))), Usize::U32(0), &mut pc_nxt)
        .unwrap();
    assert_eq!(ex.r_usize(3), Usize::U32(0b0110));
    ex.execute(&mut mem, Instruction::RV32I(RV32I::Sub(mk(0, 0x20))), Usize::U32(0), &mut pc_nxt)
        .unwrap();
    assert_eq!(ex.r_usize(3), Usize::U32(2));
}

#[test]
fn load_faults_propagate_the_memory_error() {
    let mut mem = rwx_mem(0x1000, 0x2000);
    let mut ex = Execute::new(Xlen::X64);
    let mut pc_nxt = Usize::U64(4);
    // lw from an unmapped address
    let lw = Instruction::RV32I(
        RV32I::Lw(IType { rd: 1, rs1: 0, funct3: 2, imm: Imm::new(0x10, 12) }),
    );
    let r = ex.execute(&mut mem, lw, Usize::U64(0), &mut pc_nxt);
    assert_eq!(r, Err(Error::Mem64(MemError::NoMemory { addr: 0x10 })));
    assert_eq!(ex.r_usize(1), Usize::U64(0));
}

#[test]
fn store_doubleword_at_a_low_address_via_x0() {
    // With a section over the low addresses, sd x1, 16(x0) stores at 0x10.
    let mut mem = rwx_mem(0, 0x100);
    let mut ex = Execute::new(Xlen::X64);
    ex.w_usize(1, Usize::U64(0x1234_5678_9ABC_DEF0));
    let mut pc_nxt = Usize::U64(4);
    let sd = Instruction::RV64I(
        RV64I::Sd(SType { rs1: 0, rs2: 1, funct3: 3, imm: Imm::new(16, 12) }),
    );
    ex.execute(&mut mem, sd, Usize::U64(0), &mut pc_nxt).unwrap();
    let ld = Instruction::RV64I(
        RV64I::Ld(IType { rd: 2, rs1: 0, funct3: 3, imm: Imm::new(16, 12) }),
    );
    ex.execute(&mut mem, ld, Usize::U64(4), &mut pc_nxt).unwrap();
    assert_eq!(ex.r_usize(2), Usize::U64(0x1234_5678_9ABC_DEF0));
}

#[test]
fn frm_writes_land_in_the_fcsr_field() {
    let mut mem = rwx_mem(0, 0x100);
    let mut ex = Execute::new(Xlen::X64);
    ex.w_usize(3, Usize::U64(0x5));
    let mut pc_nxt = Usize::U64(4);
    // csrrw x0, frm, x3: FRM is FCSR bits 7:5.
    let csrrw = Instruction::RVZicsr(
        RVZicsr::Csrrw(CsrType { rd: 0, rs1uimm: 3, funct3: 1, csr: 2 }),
    );
    ex.execute(&mut mem, csrrw, Usize::U64(0), &mut pc_nxt).unwrap();
    assert_eq!(ex.r_csr(2), Usize::U64(0x5));
    assert_eq!(ex.r_csr(3), Usize::U64(0xA0));
    assert_eq!(ex.r_csr(1), Usize::U64(0));
    // csrrsi x4, fflags, 3: sets the low flag bits, leaving FRM alone.
    let csrrsi = Instruction::RVZicsr(
        RVZicsr::Csrrsi(CsrType { rd: 4, rs1uimm: 3, funct3: 6, csr: 1 }),
    );
    ex.execute(&mut mem, csrrsi, Usize::U64(0), &mut pc_nxt).unwrap();
    assert_eq!(ex.r_usize(4), Usize::U64(0));
    assert_eq!(ex.r_csr(1), Usize::U64(0x3));
    assert_eq!(ex.r_csr(3), Usize::U64(0xA3));
    assert_eq!(ex.r_csr(2), Usize::U64(0x5));
}
