use emu6::Xlen;
use emu6::fetch::Instruction;
use emu6::fetch::RV32I;
use emu6::fetch::RV64I;
use emu6::fetch::RVC;
use emu6::fetch::RVZicsr;
use emu6::fetch::resolve_u16;
use emu6::fetch::resolve_u32;

#[test]
fn ecall_and_ebreak_decode() {
    match resolve_u32(0x0000_0073, Xlen::X64) {
        Some(Instruction::RV32I(RV32I::Ecall(_))) => {}
        other => panic!("expected ECALL, got {:?}", other),
    }
    match resolve_u32(0x0010_0073, Xlen::X64) {
        Some(Instruction::RV32I(RV32I::Ebreak(_))) => {}
        other => panic!("expected EBREAK, got {:?}", other),
    }
    assert!(resolve_u32(0xFFFF_FFFF, Xlen::X64).is_none());
}

#[test]
fn ecall_with_nonzero_rd_is_illegal() {
    // The same funct12 with rd = x1 must not decode.
    assert!(resolve_u32(0x0000_00F3, Xlen::X64).is_none());
}

#[test]
fn addi_decodes_with_fields() {
    // addi x1, x2, 5: imm=5, rs1=2, funct3=000, rd=1, opcode=0010011
    let w: u32 = (5 << 20) | (2 << 15) | (1 << 7) | 0b0010011;
    match resolve_u32(w, Xlen::X32) {
        Some(Instruction::RV32I(RV32I::Addi(i))) => {
            assert_eq!(i.rd, 1);
            assert_eq!(i.rs1, 2);
            assert_eq!(i.imm.data, 5);
            assert_eq!(i.imm.valid_bits, 12);
        }
        other => panic!("expected ADDI, got {:?}", other),
    }
}

#[test]
fn ld_requires_a_64_bit_machine() {
    // ld x1, 0(x2): funct3=011, opcode=0000011
    let w: u32 = (2 << 15) | (0b011 << 12) | (1 << 7) | 0b0000011;
    assert!(resolve_u32(w, Xlen::X32).is_none());
    match resolve_u32(w, Xlen::X64) {
        Some(Instruction::RV64I(RV64I::Ld(_))) => {}
        other => panic!("expected LD, got {:?}", other),
    }
}

#[test]
fn lwu_requires_a_64_bit_machine() {
    let w: u32 = (2 << 15) | (0b110 << 12) | (1 << 7) | 0b0000011;
    assert!(resolve_u32(w, Xlen::X32).is_none());
    match resolve_u32(w, Xlen::X64) {
        Some(Instruction::RV64I(RV64I::Lwu(_))) => {}
        other => panic!("expected LWU, got {:?}", other),
    }
}

#[test]
fn sd_requires_a_64_bit_machine() {
    let w: u32 = (1 << 20) | (2 << 15) | (0b011 << 12) | 0b0100011;
    assert!(resolve_u32(w, Xlen::X32).is_none());
    match resolve_u32(w, Xlen::X64) {
        Some(Instruction::RV64I(RV64I::Sd(_))) => {}
        other => panic!("expected SD, got {:?}", other),
    }
}

#[test]
fn slli_shift_amount_gating_by_width() {
    // slli x1, x1, 32: legal only with the 6-bit shamt of RV64I.
    let w: u32 = (32 << 20) | (1 << 15) | (0b001 << 12) | (1 << 7) | 0b0010011;
    assert!(resolve_u32(w, Xlen::X32).is_none());
    match resolve_u32(w, Xlen::X64) {
        Some(Instruction::RV64I(RV64I::Slli(_))) => {}
        other => panic!("expected RV64I SLLI, got {:?}", other),
    }
    // slli x1, x1, 1 on a 32-bit machine stays in the base set.
    let w1: u32 = (1 << 20) | (1 << 15) | (0b001 << 12) | (1 << 7) | 0b0010011;
    match resolve_u32(w1, Xlen::X32) {
        Some(Instruction::RV32I(RV32I::Slli(_))) => {}
        other => panic!("expected RV32I SLLI, got {:?}", other),
    }
}

#[test]
fn csr_instructions_decode() {
    // csrrw x0, fcsr, x10: csr=3, rs1=10, funct3=001, rd=0, opcode=1110011
    let w: u32 = (3 << 20) | (10 << 15) | (0b001 << 12) | 0b1110011;
    match resolve_u32(w, Xlen::X64) {
        Some(Instruction::RVZicsr(RVZicsr::Csrrw(t))) => {
            assert_eq!(t.csr, 3);
            assert_eq!(t.rs1uimm, 10);
            assert_eq!(t.rd, 0);
        }
        other => panic!("expected CSRRW, got {:?}", other),
    }
}

#[test]
fn fence_decodes() {
    let w: u32 = 0b0001111;
    match resolve_u32(w, Xlen::X32) {
        Some(Instruction::RV32I(RV32I::Fence(_))) => {}
        other => panic!("expected FENCE, got {:?}", other),
    }
}

#[test]
fn jal_immediate_gathers() {
    // jal x1, +0x24: imm[10:1] = 0x12 -> bits 30:21 of the word.
    let w: u32 = (0x12 << 21) | (1 << 7) | 0b1101111;
    match resolve_u32(w, Xlen::X64) {
        Some(Instruction::RV32I(RV32I::Jal(j))) => {
            assert_eq!(j.rd, 1);
            assert_eq!(j.imm.data, 0x24);
            assert_eq!(j.imm.valid_bits, 21);
        }
        other => panic!("expected JAL, got {:?}", other),
    }
}

#[test]
fn compressed_nop_and_reserved_zero() {
    match resolve_u16(0x0001, Xlen::X32) {
        Some(Instruction::RVC(RVC::Cnop(_))) => {}
        other => panic!("expected C.NOP, got {:?}", other),
    }
    // The all-zero word is a reserved encoding.
    assert!(resolve_u16(0x0000, Xlen::X32).is_none());
    assert!(resolve_u16(0x0000, Xlen::X64).is_none());
}

#[test]
fn compressed_jal_only_on_32_bit() {
    // C.JAL +0x24: opcode 01, funct3 001; target bits: imm[5]=w2? per the
    // RVC gather imm[5]=w[2], imm[4]=w[11], imm[3:1]=w[5:3].
    // 0x24 = 0b100100: imm[5]=1, imm[2]=1.
    let w: u16 = (0b001 << 13) | (1 << 2) | (1 << 4) | 0b01;
    match resolve_u16(w, Xlen::X32) {
        Some(Instruction::RVC(RVC::Cjal(t))) => {
            assert_eq!(t.target.data, 0x24);
            assert_eq!(t.target.valid_bits, 12);
        }
        other => panic!("expected C.JAL, got {:?}", other),
    }
    match resolve_u16(w, Xlen::X64) {
        Some(Instruction::RVC(RVC::Caddiw(_))) => {}
        other => panic!("expected C.ADDIW on a 64-bit machine, got {:?}", other),
    }
}

#[test]
fn compressed_li_needs_nonzero_rd() {
    // c.li x1, 3: opcode 01, funct3 010, rdrs1=1, imm[4:0]=3
    let w: u16 = (0b010 << 13) | (1 << 7) | (3 << 2) | 0b01;
    match resolve_u16(w, Xlen::X32) {
        Some(Instruction::RVC(RVC::Cli(t))) => {
            assert_eq!(t.rdrs1, 1);
            assert_eq!(t.imm.data, 3);
        }
        other => panic!("expected C.LI, got {:?}", other),
    }
    let w0: u16 = (0b010 << 13) | (3 << 2) | 0b01;
    assert!(resolve_u16(w0, Xlen::X32).is_none());
}

#[test]
fn compressed_lw_maps_registers_up_by_eight() {
    // c.lw: opcode 00, funct3 010; rd' and rs1' name x8..x15.
    let w: u16 = (0b010 << 13) | (0 << 7) | (1 << 2) | 0b00;
    match resolve_u16(w, Xlen::X32) {
        Some(Instruction::RVC(RVC::Clw(t))) => {
            assert_eq!(t.rs1, 8);
            assert_eq!(t.rd, 9);
        }
        other => panic!("expected C.LW, got {:?}", other),
    }
}

#[test]
fn compressed_ebreak_and_jr() {
    // c.ebreak: 0x9002; c.jr x1: 0x8082
    match resolve_u16(0x9002, Xlen::X32) {
        Some(Instruction::RVC(RVC::Cebreak(_))) => {}
        other => panic!("expected C.EBREAK, got {:?}", other),
    }
    match resolve_u16(0x8082, Xlen::X32) {
        Some(Instruction::RVC(RVC::Cjr(t))) => assert_eq!(t.rdrs1, 1),
        other => panic!("expected C.JR, got {:?}", other),
    }
}

#[test]
fn decode32_never_yields_rv64i_on_32_bit() {
    // Sweep the OP-IMM-32 and OP-32 opcodes: none decode on a 32-bit machine.
    for f3 in 0..8u32 {
        let w_imm32 = (f3 << 12) | 0b0011011;
        let w_op32 = (f3 << 12) | 0b0111011;
        assert!(resolve_u32(w_imm32, Xlen::X32).is_none());
        assert!(resolve_u32(w_op32, Xlen::X32).is_none());
    }
}
