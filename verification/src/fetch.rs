use vstd::prelude::*;

verus! {

use crate::Xlen;
use crate::error::Error;
use crate::imm::Imm;
use crate::imm::Uimm;
use crate::mem64::Intent;
use crate::mem64::Physical;
use crate::size::Usize;

/// One decoded instruction, tagged by the encoding family it came from.
#[derive(Clone, Copy, PartialEq, Eq, Structural, Debug)]
pub enum Instruction {
    RV32I(RV32I),
    RV64I(RV64I),
    RVC(RVC),
    RVZicsr(RVZicsr),
}

/// The base 32-bit integer instructions.
#[derive(Clone, Copy, PartialEq, Eq, Structural, Debug)]
pub enum RV32I {
    Lui(UType),
    Auipc(UType),
    Jal(JType),
    Jalr(IType),
    Beq(BType),
    Bne(BType),
    Blt(BType),
    Bge(BType),
    Bltu(BType),
    Bgeu(BType),
    Lb(IType),
    Lh(IType),
    Lw(IType),
    Lbu(IType),
    Lhu(IType),
    Sb(SType),
    Sh(SType),
    Sw(SType),
    Addi(IType),
    Slti(IType),
    Sltiu(IType),
    Xori(IType),
    Ori(IType),
    Andi(IType),
    Slli(IType),
    Srli(IType),
    Srai(IType),
    Add(RType),
    Sub(RType),
    Sll(RType),
    Slt(RType),
    Sltu(RType),
    Xor(RType),
    Srl(RType),
    Sra(RType),
    Or(RType),
    And(RType),
    Fence(IType),
    Ecall(IType),
    Ebreak(IType),
}

/// The instructions RV64I adds to the base.
#[derive(Clone, Copy, PartialEq, Eq, Structural, Debug)]
pub enum RV64I {
    Lwu(IType),
    Ld(IType),
    Sd(SType),
    Sll(RType),
    Srl(RType),
    Sra(RType),
    Slli(IType),
    Srli(IType),
    Srai(IType),
    Addiw(IType),
    Slliw(IType),
    Srliw(IType),
    Sraiw(IType),
    Addw(RType),
    Subw(RType),
    Sllw(RType),
    Srlw(RType),
    Sraw(RType),
}

/// The control-and-status-register instructions.
#[derive(Clone, Copy, PartialEq, Eq, Structural, Debug)]
pub enum RVZicsr {
    Csrrw(CsrType),
    Csrrs(CsrType),
    Csrrc(CsrType),
    Csrrwi(CsrType),
    Csrrsi(CsrType),
    Csrrci(CsrType),
}

#[derive(Clone, Copy, PartialEq, Eq, Structural, Debug)]
pub struct UType {
    pub rd: u8,
    pub imm: Uimm,
}

#[derive(Clone, Copy, PartialEq, Eq, Structural, Debug)]
pub struct JType {
    pub rd: u8,
    pub imm: Imm,
}

#[derive(Clone, Copy, PartialEq, Eq, Structural, Debug)]
pub struct IType {
    pub rd: u8,
    pub rs1: u8,
    pub funct3: u8,
    pub imm: Imm,
}

#[derive(Clone, Copy, PartialEq, Eq, Structural, Debug)]
pub struct SType {
    pub rs1: u8,
    pub rs2: u8,
    pub funct3: u8,
    pub imm: Imm,
}

#[derive(Clone, Copy, PartialEq, Eq, Structural, Debug)]
pub struct BType {
    pub rs1: u8,
    pub rs2: u8,
    pub funct3: u8,
    pub imm: Imm,
}

#[derive(Clone, Copy, PartialEq, Eq, Structural, Debug)]
pub struct RType {
    pub rd: u8,
    pub rs1: u8,
    pub rs2: u8,
    pub funct3: u8,
    pub funct7: u8,
}

#[derive(Clone, Copy, PartialEq, Eq, Structural, Debug)]
pub struct CsrType {
    pub rd: u8,
    pub rs1uimm: u8,
    pub funct3: u8,
    pub csr: u16,
}

/// The compressed 16-bit instructions.
#[derive(Clone, Copy, PartialEq, Eq, Structural, Debug)]
pub enum RVC {
    Caddi4spn(CIWType),
    Cfld(CLType),
    Clq(CLType),
    Clw(CLType),
    Cflw(CLType),
    Cld(CLType),
    Cfsd(CSType),
    Csq(CSType),
    Csw(CSType),
    Cfsw(CSType),
    Csd(CSType),
    Cnop(CIType),
    Caddi(CIType),
    Cjal(CJType),
    Caddiw(CIType),
    Cli(CIType),
    Caddi16sp(CIType),
    Clui(CIType),
    Csrli(CIType),
    Csrli64(CIType),
    Csrai(CIType),
    Csrai64(CIType),
    Candi(CIType),
    Csub(CAType),
    Cxor(CAType),
    Cor(CAType),
    Cand(CAType),
    Csubw(CAType),
    Caddw(CAType),
    Cj(CJType),
    Cbeqz(CBType),
    Cbnez(CBType),
    Cslli(CIType),
    Cslli64(CIType),
    Cfldsp(CIType),
    Clqsp(CIType),
    Clwsp(CIType),
    Cflwsp(CIType),
    Cldsp(CIType),
    Cjr(CRType),
    Cmv(CRType),
    Cebreak(CRType),
    Cjalr(CRType),
    Cadd(CRType),
    Cfsdsp(CSSType),
    Csqsp(CSSType),
    Cswsp(CSSType),
    Cfswsp(CSSType),
    Csdsp(CSSType),
}

#[derive(Clone, Copy, PartialEq, Eq, Structural, Debug)]
pub struct CRType {
    pub rdrs1: u8,
    pub rs2: u8,
    pub funct4: u8,
}

#[derive(Clone, Copy, PartialEq, Eq, Structural, Debug)]
pub struct CIType {
    pub rdrs1: u8,
    pub funct3: u8,
    pub imm: Imm,
}

#[derive(Clone, Copy, PartialEq, Eq, Structural, Debug)]
pub struct CSSType {
    pub rs2: u8,
    pub funct3: u8,
    pub imm: Imm,
}

#[derive(Clone, Copy, PartialEq, Eq, Structural, Debug)]
pub struct CIWType {
    pub rd: u8,
    pub funct3: u8,
    pub imm: Imm,
}

#[derive(Clone, Copy, PartialEq, Eq, Structural, Debug)]
pub struct CLType {
    pub rd: u8,
    pub rs1: u8,
    pub funct3: u8,
    pub imm: Imm,
}

#[derive(Clone, Copy, PartialEq, Eq, Structural, Debug)]
pub struct CSType {
    pub rs1: u8,
    pub rs2: u8,
    pub funct3: u8,
    pub imm: Imm,
}

#[derive(Clone, Copy, PartialEq, Eq, Structural, Debug)]
pub struct CAType {
    pub rdrs1: u8,
    pub rs2: u8,
    pub funct2: u8,
    pub funct6: u8,
}

#[derive(Clone, Copy, PartialEq, Eq, Structural, Debug)]
pub struct CBType {
    pub rs1: u8,
    pub funct3: u8,
    pub off: Imm,
}

#[derive(Clone, Copy, PartialEq, Eq, Structural, Debug)]
pub struct CJType {
    pub funct3: u8,
    pub target: Imm,
}

pub const OPCODE_LOAD: u32 = 0b0000011;
pub const OPCODE_MISC_MEM: u32 = 0b0001111;
pub const OPCODE_OP_IMM: u32 = 0b0010011;
pub const OPCODE_AUIPC: u32 = 0b0010111;
pub const OPCODE_OP_IMM32: u32 = 0b0011011;
pub const OPCODE_STORE: u32 = 0b0100011;
pub const OPCODE_OP: u32 = 0b0110011;
pub const OPCODE_LUI: u32 = 0b0110111;
pub const OPCODE_OP_32: u32 = 0b0111011;
pub const OPCODE_BRANCH: u32 = 0b1100011;
pub const OPCODE_JALR: u32 = 0b1100111;
pub const OPCODE_JAL: u32 = 0b1101111;
pub const OPCODE_SYSTEM: u32 = 0b1110011;

/// Whether the machine width counts as a 64-bit one for decode gating.
pub open spec fn spec_wide(xlen: Xlen) -> bool {
    xlen == Xlen::X64 || xlen == Xlen::X128
}

/// The mathematical 32-bit decoder: the bit-exact partition of an
/// encoded word into its fields, and the dispatch table over opcode,
/// funct3, funct7 and funct12 with the width gating the base spec asks
/// for.  `None` stands for an illegal encoding.
pub open spec fn spec_decode32(w: u32, xlen: Xlen) -> Option<Instruction> {
    let opcode = w & 0x7F;
    let rd = ((w >> 7) & 0x1F) as u8;
    let rs1 = ((w >> 15) & 0x1F) as u8;
    let rs2 = ((w >> 20) & 0x1F) as u8;
    let funct3 = ((w >> 12) & 0x7) as u8;
    let funct7 = ((w >> 25) & 0x7F) as u8;
    let funct12 = (w >> 20) & 0xFFF;
    let csr = ((w >> 20) & 0xFFF) as u16;
    let imm_i = Imm { data: (w >> 20) & 0xFFF, valid_bits: 12 };
    let imm_s = Imm { data: ((w >> 7) & 0x1F) | (((w >> 25) & 0x7F) << 5), valid_bits: 12 };
    let imm_b = Imm {
        data: (((w >> 7) & 0x1) << 11) | (((w >> 8) & 0xF) << 1) | (((w >> 25) & 0x3F) << 5) | (((w
            >> 31) & 0x1) << 12),
        valid_bits: 12,
    };
    let imm_u = Uimm { data: w & 0xFFFFF000, valid_bits: 32 };
    let imm_j = Imm {
        data: (((w >> 31) & 0x1) << 20) | (((w >> 21) & 0x3FF) << 1) | (((w >> 20) & 0x1) << 11) | (
        ((w >> 12) & 0xFF) << 12),
        valid_bits: 21,
    };
    let u_type = UType { rd, imm: imm_u };
    let j_type = JType { rd, imm: imm_j };
    let b_type = BType { rs1, rs2, funct3, imm: imm_b };
    let i_type = IType { rd, rs1, funct3, imm: imm_i };
    let s_type = SType { rs1, rs2, funct3, imm: imm_s };
    let r_type = RType { rd, rs1, rs2, funct3, funct7 };
    let csr_type = CsrType { rd, rs1uimm: rs1, funct3, csr };
    if opcode == OPCODE_LUI {
        Some(Instruction::RV32I(RV32I::Lui(u_type)))
    } else if opcode == OPCODE_AUIPC {
        Some(Instruction::RV32I(RV32I::Auipc(u_type)))
    } else if opcode == OPCODE_JAL {
        Some(Instruction::RV32I(RV32I::Jal(j_type)))
    } else if opcode == OPCODE_JALR {
        Some(Instruction::RV32I(RV32I::Jalr(i_type)))
    } else if opcode == OPCODE_BRANCH {
        if funct3 == 0b000 {
            Some(Instruction::RV32I(RV32I::Beq(b_type)))
        } else if funct3 == 0b001 {
            Some(Instruction::RV32I(RV32I::Bne(b_type)))
        } else if funct3 == 0b100 {
            Some(Instruction::RV32I(RV32I::Blt(b_type)))
        } else if funct3 == 0b101 {
            Some(Instruction::RV32I(RV32I::Bge(b_type)))
        } else if funct3 == 0b110 {
            Some(Instruction::RV32I(RV32I::Bltu(b_type)))
        } else if funct3 == 0b111 {
            Some(Instruction::RV32I(RV32I::Bgeu(b_type)))
        } else {
            None
        }
    } else if opcode == OPCODE_LOAD {
        if funct3 == 0b000 {
            Some(Instruction::RV32I(RV32I::Lb(i_type)))
        } else if funct3 == 0b001 {
            Some(Instruction::RV32I(RV32I::Lh(i_type)))
        } else if funct3 == 0b010 {
            Some(Instruction::RV32I(RV32I::Lw(i_type)))
        } else if funct3 == 0b011 && spec_wide(xlen) {
            Some(Instruction::RV64I(RV64I::Ld(i_type)))
        } else if funct3 == 0b100 {
            Some(Instruction::RV32I(RV32I::Lbu(i_type)))
        } else if funct3 == 0b101 {
            Some(Instruction::RV32I(RV32I::Lhu(i_type)))
        } else if funct3 == 0b110 && spec_wide(xlen) {
            Some(Instruction::RV64I(RV64I::Lwu(i_type)))
        } else {
            None
        }
    } else if opcode == OPCODE_STORE {
        if funct3 == 0b000 {
            Some(Instruction::RV32I(RV32I::Sb(s_type)))
        } else if funct3 == 0b001 {
            Some(Instruction::RV32I(RV32I::Sh(s_type)))
        } else if funct3 == 0b010 {
            Some(Instruction::RV32I(RV32I::Sw(s_type)))
        } else if funct3 == 0b011 && spec_wide(xlen) {
            Some(Instruction::RV64I(RV64I::Sd(s_type)))
        } else {
            None
        }
    } else if opcode == OPCODE_MISC_MEM {
        if funct3 == 0b000 {
            Some(Instruction::RV32I(RV32I::Fence(i_type)))
        } else {
            None
        }
    } else if opcode == OPCODE_SYSTEM {
        if funct3 == 0b000 {
            if funct12 == 0 && rs1 == 0 && rd == 0 {
                Some(Instruction::RV32I(RV32I::Ecall(i_type)))
            } else if funct12 == 1 && rs1 == 0 && rd == 0 {
                Some(Instruction::RV32I(RV32I::Ebreak(i_type)))
            } else {
                None
            }
        } else if funct3 == 0b001 {
            Some(Instruction::RVZicsr(RVZicsr::Csrrw(csr_type)))
        } else if funct3 == 0b010 {
            Some(Instruction::RVZicsr(RVZicsr::Csrrs(csr_type)))
        } else if funct3 == 0b011 {
            Some(Instruction::RVZicsr(RVZicsr::Csrrc(csr_type)))
        } else if funct3 == 0b101 {
            Some(Instruction::RVZicsr(RVZicsr::Csrrwi(csr_type)))
        } else if funct3 == 0b110 {
            Some(Instruction::RVZicsr(RVZicsr::Csrrsi(csr_type)))
        } else if funct3 == 0b111 {
            Some(Instruction::RVZicsr(RVZicsr::Csrrci(csr_type)))
        } else {
            None
        }
    } else if opcode == OPCODE_OP_IMM {
        if funct3 == 0b000 {
            Some(Instruction::RV32I(RV32I::Addi(i_type)))
        } else if funct3 == 0b010 {
            Some(Instruction::RV32I(RV32I::Slti(i_type)))
        } else if funct3 == 0b011 {
            Some(Instruction::RV32I(RV32I::Sltiu(i_type)))
        } else if funct3 == 0b100 {
            Some(Instruction::RV32I(RV32I::Xori(i_type)))
        } else if funct3 == 0b110 {
            Some(Instruction::RV32I(RV32I::Ori(i_type)))
        } else if funct3 == 0b111 {
            Some(Instruction::RV32I(RV32I::Andi(i_type)))
        } else if funct3 == 0b001 {
            if funct7 == 0 && xlen == Xlen::X32 {
                Some(Instruction::RV32I(RV32I::Slli(i_type)))
            } else if (funct7 & 0x7E) == 0 && xlen == Xlen::X64 {
                Some(Instruction::RV64I(RV64I::Slli(i_type)))
            } else {
                None
            }
        } else if funct3 == 0b101 {
            if funct7 == 0b0000000 && xlen == Xlen::X32 {
                Some(Instruction::RV32I(RV32I::Srli(i_type)))
            } else if funct7 == 0b0100000 && xlen == Xlen::X32 {
                Some(Instruction::RV32I(RV32I::Srai(i_type)))
            } else if (funct7 & 0x7E) == 0b0000000 && xlen == Xlen::X64 {
                Some(Instruction::RV64I(RV64I::Srli(i_type)))
            } else if (funct7 & 0x7E) == 0b0100000 && xlen == Xlen::X64 {
                Some(Instruction::RV64I(RV64I::Srai(i_type)))
            } else {
                None
            }
        } else {
            None
        }
    } else if opcode == OPCODE_OP {
        if funct3 == 0b000 {
            if funct7 == 0b0000000 {
                Some(Instruction::RV32I(RV32I::Add(r_type)))
            } else if funct7 == 0b0100000 {
                Some(Instruction::RV32I(RV32I::Sub(r_type)))
            } else {
                None
            }
        } else if funct3 == 0b010 && funct7 == 0 {
            Some(Instruction::RV32I(RV32I::Slt(r_type)))
        } else if funct3 == 0b011 && funct7 == 0 {
            Some(Instruction::RV32I(RV32I::Sltu(r_type)))
        } else if funct3 == 0b100 && funct7 == 0 {
            Some(Instruction::RV32I(RV32I::Xor(r_type)))
        } else if funct3 == 0b110 && funct7 == 0 {
            Some(Instruction::RV32I(RV32I::Or(r_type)))
        } else if funct3 == 0b111 && funct7 == 0 {
            Some(Instruction::RV32I(RV32I::And(r_type)))
        } else if funct3 == 0b001 {
            if funct7 == 0 && xlen == Xlen::X32 {
                Some(Instruction::RV32I(RV32I::Sll(r_type)))
            } else if (funct7 & 0x7E) == 0 && xlen == Xlen::X64 {
                Some(Instruction::RV64I(RV64I::Sll(r_type)))
            } else {
                None
            }
        } else if funct3 == 0b101 {
            if funct7 == 0b0000000 && xlen == Xlen::X32 {
                Some(Instruction::RV32I(RV32I::Srl(r_type)))
            } else if funct7 == 0b0100000 && xlen == Xlen::X32 {
                Some(Instruction::RV32I(RV32I::Sra(r_type)))
            } else if funct7 == 0b0000000 && xlen == Xlen::X64 {
                Some(Instruction::RV64I(RV64I::Srl(r_type)))
            } else if funct7 == 0b0100000 && xlen == Xlen::X64 {
                Some(Instruction::RV64I(RV64I::Sra(r_type)))
            } else {
                None
            }
        } else {
            None
        }
    } else if opcode == OPCODE_OP_IMM32 && spec_wide(xlen) {
        if funct3 == 0b000 {
            Some(Instruction::RV64I(RV64I::Addiw(i_type)))
        } else if funct3 == 0b001 && funct7 == 0 {
            Some(Instruction::RV64I(RV64I::Slliw(i_type)))
        } else if funct3 == 0b101 {
            if funct7 == 0b0000000 {
                Some(Instruction::RV64I(RV64I::Srliw(i_type)))
            } else if funct7 == 0b0100000 {
                Some(Instruction::RV64I(RV64I::Sraiw(i_type)))
            } else {
                None
            }
        } else {
            None
        }
    } else if opcode == OPCODE_OP_32 && spec_wide(xlen) {
        if funct3 == 0b000 {
            if funct7 == 0b0000000 {
                Some(Instruction::RV64I(RV64I::Addw(r_type)))
            } else if funct7 == 0b0100000 {
                Some(Instruction::RV64I(RV64I::Subw(r_type)))
            } else {
                None
            }
        } else if funct3 == 0b001 && funct7 == 0 {
            Some(Instruction::RV64I(RV64I::Sllw(r_type)))
        } else if funct3 == 0b101 {
            if funct7 == 0b0000000 {
                Some(Instruction::RV64I(RV64I::Srlw(r_type)))
            } else if funct7 == 0b0100000 {
                Some(Instruction::RV64I(RV64I::Sraw(r_type)))
            } else {
                None
            }
        } else {
            None
        }
    } else {
        None
    }
}

/// Decode one 32-bit word; `None` is an illegal encoding.
#[verifier::rlimit(50)]
pub fn resolve_u32(w: u32, xlen: Xlen) -> (r: Option<Instruction>)
    ensures
        r == spec_decode32(w, xlen),
{
    let opcode: u32 = w & 0x7F;
    let rd: u8 = ((w >> 7) & 0x1F) as u8;
    let rs1: u8 = ((w >> 15) & 0x1F) as u8;
    let rs2: u8 = ((w >> 20) & 0x1F) as u8;
    let funct3: u8 = ((w >> 12) & 0x7) as u8;
    let funct7: u8 = ((w >> 25) & 0x7F) as u8;
    let funct12: u32 = (w >> 20) & 0xFFF;
    let csr: u16 = ((w >> 20) & 0xFFF) as u16;
    let imm_i = Imm::new((w >> 20) & 0xFFF, 12);
    let imm_s = Imm::new(((w >> 7) & 0x1F) | (((w >> 25) & 0x7F) << 5), 12);
    let imm_b = Imm::new(
        (((w >> 7) & 0x1) << 11) | (((w >> 8) & 0xF) << 1) | (((w >> 25) & 0x3F) << 5) | (((w >> 31)
            & 0x1) << 12),
        12,
    );
    let imm_u = Uimm::new(w & 0xFFFFF000, 32);
    let imm_j = Imm::new(
        (((w >> 31) & 0x1) << 20) | (((w >> 21) & 0x3FF) << 1) | (((w >> 20) & 0x1) << 11) | (((w
            >> 12) & 0xFF) << 12),
        21,
    );
    let u_type = UType { rd, imm: imm_u };
    let j_type = JType { rd, imm: imm_j };
    let b_type = BType { rs1, rs2, funct3, imm: imm_b };
    let i_type = IType { rd, rs1, funct3, imm: imm_i };
    let s_type = SType { rs1, rs2, funct3, imm: imm_s };
    let r_type = RType { rd, rs1, rs2, funct3, funct7 };
    let csr_type = CsrType { rd, rs1uimm: rs1, funct3, csr };
    let wide = match xlen {
        Xlen::X32 => false,
        Xlen::X64 => true,
        Xlen::X128 => true,
    };
    if opcode == OPCODE_LUI {
        Some(Instruction::RV32I(RV32I::Lui(u_type)))
    } else if opcode == OPCODE_AUIPC {
        Some(Instruction::RV32I(RV32I::Auipc(u_type)))
    } else if opcode == OPCODE_JAL {
        Some(Instruction::RV32I(RV32I::Jal(j_type)))
    } else if opcode == OPCODE_JALR {
        Some(Instruction::RV32I(RV32I::Jalr(i_type)))
    } else if opcode == OPCODE_BRANCH {
        if funct3 == 0b000 {
            Some(Instruction::RV32I(RV32I::Beq(b_type)))
        } else if funct3 == 0b001 {
            Some(Instruction::RV32I(RV32I::Bne(b_type)))
        } else if funct3 == 0b100 {
            Some(Instruction::RV32I(RV32I::Blt(b_type)))
        } else if funct3 == 0b101 {
            Some(Instruction::RV32I(RV32I::Bge(b_type)))
        } else if funct3 == 0b110 {
            Some(Instruction::RV32I(RV32I::Bltu(b_type)))
        } else if funct3 == 0b111 {
            Some(Instruction::RV32I(RV32I::Bgeu(b_type)))
        } else {
            None
        }
    } else if opcode == OPCODE_LOAD {
        if funct3 == 0b000 {
            Some(Instruction::RV32I(RV32I::Lb(i_type)))
        } else if funct3 == 0b001 {
            Some(Instruction::RV32I(RV32I::Lh(i_type)))
        } else if funct3 == 0b010 {
            Some(Instruction::RV32I(RV32I::Lw(i_type)))
        } else if funct3 == 0b011 && wide {
            Some(Instruction::RV64I(RV64I::Ld(i_type)))
        } else if funct3 == 0b100 {
            Some(Instruction::RV32I(RV32I::Lbu(i_type)))
        } else if funct3 == 0b101 {
            Some(Instruction::RV32I(RV32I::Lhu(i_type)))
        } else if funct3 == 0b110 && wide {
            Some(Instruction::RV64I(RV64I::Lwu(i_type)))
        } else {
            None
        }
    } else if opcode == OPCODE_STORE {
        if funct3 == 0b000 {
            Some(Instruction::RV32I(RV32I::Sb(s_type)))
        } else if funct3 == 0b001 {
            Some(Instruction::RV32I(RV32I::Sh(s_type)))
        } else if funct3 == 0b010 {
            Some(Instruction::RV32I(RV32I::Sw(s_type)))
        } else if funct3 == 0b011 && wide {
            Some(Instruction::RV64I(RV64I::Sd(s_type)))
        } else {
            None
        }
    } else if opcode == OPCODE_MISC_MEM {
        if funct3 == 0b000 {
            Some(Instruction::RV32I(RV32I::Fence(i_type)))
        } else {
            None
        }
    } else if opcode == OPCODE_SYSTEM {
        if funct3 == 0b000 {
            if funct12 == 0 && rs1 == 0 && rd == 0 {
                Some(Instruction::RV32I(RV32I::Ecall(i_type)))
            } else if funct12 == 1 && rs1 == 0 && rd == 0 {
                Some(Instruction::RV32I(RV32I::Ebreak(i_type)))
            } else {
                None
            }
        } else if funct3 == 0b001 {
            Some(Instruction::RVZicsr(RVZicsr::Csrrw(csr_type)))
        } else if funct3 == 0b010 {
            Some(Instruction::RVZicsr(RVZicsr::Csrrs(csr_type)))
        } else if funct3 == 0b011 {
            Some(Instruction::RVZicsr(RVZicsr::Csrrc(csr_type)))
        } else if funct3 == 0b101 {
            Some(Instruction::RVZicsr(RVZicsr::Csrrwi(csr_type)))
        } else if funct3 == 0b110 {
            Some(Instruction::RVZicsr(RVZicsr::Csrrsi(csr_type)))
        } else if funct3 == 0b111 {
            Some(Instruction::RVZicsr(RVZicsr::Csrrci(csr_type)))
        } else {
            None
        }
    } else if opcode == OPCODE_OP_IMM {
        if funct3 == 0b000 {
            Some(Instruction::RV32I(RV32I::Addi(i_type)))
        } else if funct3 == 0b010 {
            Some(Instruction::RV32I(RV32I::Slti(i_type)))
        } else if funct3 == 0b011 {
            Some(Instruction::RV32I(RV32I::Sltiu(i_type)))
        } else if funct3 == 0b100 {
            Some(Instruction::RV32I(RV32I::Xori(i_type)))
        } else if funct3 == 0b110 {
            Some(Instruction::RV32I(RV32I::Ori(i_type)))
        } else if funct3 == 0b111 {
            Some(Instruction::RV32I(RV32I::Andi(i_type)))
        } else if funct3 == 0b001 {
            if funct7 == 0 && matches!(xlen, Xlen::X32) {
                Some(Instruction::RV32I(RV32I::Slli(i_type)))
            } else if (funct7 & 0x7E) == 0 && matches!(xlen, Xlen::X64) {
                Some(Instruction::RV64I(RV64I::Slli(i_type)))
            } else {
                None
            }
        } else if funct3 == 0b101 {
            if funct7 == 0b0000000 && matches!(xlen, Xlen::X32) {
                Some(Instruction::RV32I(RV32I::Srli(i_type)))
            } else if funct7 == 0b0100000 && matches!(xlen, Xlen::X32) {
                Some(Instruction::RV32I(RV32I::Srai(i_type)))
            } else if (funct7 & 0x7E) == 0b0000000 && matches!(xlen, Xlen::X64) {
                Some(Instruction::RV64I(RV64I::Srli(i_type)))
            } else if (funct7 & 0x7E) == 0b0100000 && matches!(xlen, Xlen::X64) {
                Some(Instruction::RV64I(RV64I::Srai(i_type)))
            } else {
                None
            }
        } else {
            None
        }
    } else if opcode == OPCODE_OP {
        if funct3 == 0b000 {
            if funct7 == 0b0000000 {
                Some(Instruction::RV32I(RV32I::Add(r_type)))
            } else if funct7 == 0b0100000 {
                Some(Instruction::RV32I(RV32I::Sub(r_type)))
            } else {
                None
            }
        } else if funct3 == 0b010 && funct7 == 0 {
            Some(Instruction::RV32I(RV32I::Slt(r_type)))
        } else if funct3 == 0b011 && funct7 == 0 {
            Some(Instruction::RV32I(RV32I::Sltu(r_type)))
        } else if funct3 == 0b100 && funct7 == 0 {
            Some(Instruction::RV32I(RV32I::Xor(r_type)))
        } else if funct3 == 0b110 && funct7 == 0 {
            Some(Instruction::RV32I(RV32I::Or(r_type)))
        } else if funct3 == 0b111 && funct7 == 0 {
            Some(Instruction::RV32I(RV32I::And(r_type)))
        } else if funct3 == 0b001 {
            if funct7 == 0 && matches!(xlen, Xlen::X32) {
                Some(Instruction::RV32I(RV32I::Sll(r_type)))
            } else if (funct7 & 0x7E) == 0 && matches!(xlen, Xlen::X64) {
                Some(Instruction::RV64I(RV64I::Sll(r_type)))
            } else {
                None
            }
        } else if funct3 == 0b101 {
            if funct7 == 0b0000000 && matches!(xlen, Xlen::X32) {
                Some(Instruction::RV32I(RV32I::Srl(r_type)))
            } else if funct7 == 0b0100000 && matches!(xlen, Xlen::X32) {
                Some(Instruction::RV32I(RV32I::Sra(r_type)))
            } else if funct7 == 0b0000000 && matches!(xlen, Xlen::X64) {
                Some(Instruction::RV64I(RV64I::Srl(r_type)))
            } else if funct7 == 0b0100000 && matches!(xlen, Xlen::X64) {
                Some(Instruction::RV64I(RV64I::Sra(r_type)))
            } else {
                None
            }
        } else {
            None
        }
    } else if opcode == OPCODE_OP_IMM32 && wide {
        if funct3 == 0b000 {
            Some(Instruction::RV64I(RV64I::Addiw(i_type)))
        } else if funct3 == 0b001 && funct7 == 0 {
            Some(Instruction::RV64I(RV64I::Slliw(i_type)))
        } else if funct3 == 0b101 {
            if funct7 == 0b0000000 {
                Some(Instruction::RV64I(RV64I::Srliw(i_type)))
            } else if funct7 == 0b0100000 {
                Some(Instruction::RV64I(RV64I::Sraiw(i_type)))
            } else {
                None
            }
        } else {
            None
        }
    } else if opcode == OPCODE_OP_32 && wide {
        if funct3 == 0b000 {
            if funct7 == 0b0000000 {
                Some(Instruction::RV64I(RV64I::Addw(r_type)))
            } else if funct7 == 0b0100000 {
                Some(Instruction::RV64I(RV64I::Subw(r_type)))
            } else {
                None
            }
        } else if funct3 == 0b001 && funct7 == 0 {
            Some(Instruction::RV64I(RV64I::Sllw(r_type)))
        } else if funct3 == 0b101 {
            if funct7 == 0b0000000 {
                Some(Instruction::RV64I(RV64I::Srlw(r_type)))
            } else if funct7 == 0b0100000 {
                Some(Instruction::RV64I(RV64I::Sraw(r_type)))
            } else {
                None
            }
        } else {
            None
        }
    } else {
        None
    }
}


/// The mathematical 16-bit (compressed) decoder: the bit gathers of the
/// RVC immediate forms and the dispatch over (opcode, funct3) with the
/// width gating and reserved-pattern rules.  `None` stands for an
/// illegal encoding.
pub open spec fn spec_decode16(w: u16, xlen: Xlen) -> Option<Instruction> {

    let opcode = w & 0b11;
    let funct3 = ((w >> 13) & 0b111) as u8;
    let funct2 = ((w >> 5) & 0b11) as u8;
    let funct6 = ((w >> 10) & 0b111111) as u8;
    let funct4 = ((w >> 12) & 0b1111) as u8;
    let ins12 = (w >> 12) & 0b1 == 1;
    let nzuimm549623 = (((w >> 11) & 0b11) << 4) | (((w >> 7) & 0b1111) << 6) | (((w >> 6) & 0b1)
        << 2) | (((w >> 5) & 0b1) << 3);
    let uimm5376 = (((w >> 10) & 0b111) << 3) | (((w >> 5) & 0b11) << 6);
    let uimm54876 = (((w >> 11) & 0b11) << 4) | (((w >> 10) & 0b1) << 8) | (((w >> 5) & 0b11) << 6);
    let uimm5326 = (((w >> 10) & 0b111) << 3) | (((w >> 5) & 0b1) << 6) | (((w >> 6) & 0b1) << 2);
    let nzuimm540 = ((w >> 2) & 0b11111) | (((w >> 12) & 0b1) << 5);
    let imm114981067315 = (((w >> 12) & 0b1) << 11) | (((w >> 11) & 0b1) << 4) | (((w >> 9) & 0b11)
        << 8) | (((w >> 8) & 0b1) << 10) | (((w >> 7) & 0b1) << 6) | (((w >> 6) & 0b1) << 7) | (((w
        >> 3) & 0b111) << 1) | (((w >> 2) & 0b1) << 5);
    let nzimm946875 = (((w >> 12) & 0b1) << 9) | (((w >> 6) & 0b1) << 4) | (((w >> 5) & 0b1) << 6)
        | (((w >> 3) & 0b11) << 7) | (((w >> 2) & 0b1) << 5);
    let nzuimm171612 = ((((w as u32) >> 12) & 0b1) << 17) | ((((w as u32) >> 2) & 0b11111) << 12);
    let imm84376215 = (((w >> 12) & 0b1) << 8) | (((w >> 10) & 0b11) << 3) | (((w >> 5) & 0b11)
        << 6) | (((w >> 3) & 0b11) << 1) | (((w >> 2) & 0b1) << 5);
    let uimm54386 = (((w >> 12) & 0b1) << 5) | (((w >> 5) & 0b11) << 3) | (((w >> 2) & 0b111) << 6);
    let uimm5496 = (((w >> 12) & 0b1) << 5) | (((w >> 6) & 0b1) << 4) | (((w >> 2) & 0b1111) << 6);
    let uimm54276 = (((w >> 12) & 0b1) << 5) | (((w >> 4) & 0b111) << 2) | (((w >> 2) & 0b11) << 6);
    let uimm5386 = (((w >> 10) & 0b111) << 3) | (((w >> 7) & 0b111) << 6);
    let uimm54_96 = (((w >> 11) & 0b11) << 4) | (((w >> 7) & 0b1111) << 6);
    let uimm5276 = (((w >> 9) & 0b1111) << 2) | (((w >> 7) & 0b11) << 6);
    let rdrs1 = ((w >> 7) & 0b11111) as u8;
    let rs2 = ((w >> 2) & 0b11111) as u8;

    let r24_c = (((w >> 2) & 0b111) + 8) as u8;
    let r79_c = (((w >> 7) & 0b111) + 8) as u8;

    if opcode == 0b00 {
        if funct3 == 0b000 {
            if nzuimm549623 != 0 {
                Some(Instruction::RVC(RVC::Caddi4spn(CIWType { rd: r24_c, funct3, imm: Imm { data: nzuimm549623 as u32, valid_bits: 10 } })))
            } else {
                None
            }
        } else if funct3 == 0b001 {
            if xlen == Xlen::X32 || xlen == Xlen::X64 {
                Some(Instruction::RVC(RVC::Cfld(CLType { rd: r24_c, rs1: r79_c, funct3, imm: Imm { data: uimm5376 as u32, valid_bits: 8 } })))
            } else {
                Some(Instruction::RVC(RVC::Clq(CLType { rd: r24_c, rs1: r79_c, funct3, imm: Imm { data: uimm54876 as u32, valid_bits: 9 } })))
            }
        } else if funct3 == 0b010 {
            Some(Instruction::RVC(RVC::Clw(CLType { rd: r24_c, rs1: r79_c, funct3, imm: Imm { data: uimm5326 as u32, valid_bits: 7 } })))
        } else if funct3 == 0b011 {
            if xlen == Xlen::X32 {
                Some(Instruction::RVC(RVC::Cflw(CLType { rd: r24_c, rs1: r79_c, funct3, imm: Imm { data: uimm5326 as u32, valid_bits: 7 } })))
            } else {
                Some(Instruction::RVC(RVC::Cld(CLType { rd: r24_c, rs1: r79_c, funct3, imm: Imm { data: uimm5376 as u32, valid_bits: 8 } })))
            }
        } else if funct3 == 0b101 {
            if xlen == Xlen::X32 || xlen == Xlen::X64 {
                Some(Instruction::RVC(RVC::Cfsd(CSType { rs1: r79_c, rs2: r24_c, funct3, imm: Imm { data: uimm5376 as u32, valid_bits: 8 } })))
            } else {
                Some(Instruction::RVC(RVC::Csq(CSType { rs1: r79_c, rs2: r24_c, funct3, imm: Imm { data: uimm54876 as u32, valid_bits: 9 } })))
            }
        } else if funct3 == 0b110 {
            Some(Instruction::RVC(RVC::Csw(CSType { rs1: r79_c, rs2: r24_c, funct3, imm: Imm { data: uimm5326 as u32, valid_bits: 7 } })))
        } else if funct3 == 0b111 {
            if xlen == Xlen::X32 {
                Some(Instruction::RVC(RVC::Cfsw(CSType { rs1: r79_c, rs2: r24_c, funct3, imm: Imm { data: uimm5326 as u32, valid_bits: 7 } })))
            } else {
                Some(Instruction::RVC(RVC::Csd(CSType { rs1: r79_c, rs2: r24_c, funct3, imm: Imm { data: uimm5376 as u32, valid_bits: 8 } })))
            }
        } else {
            None
        }
    } else if opcode == 0b01 {
        if funct3 == 0b000 {
            if rdrs1 == 0 {
                Some(Instruction::RVC(RVC::Cnop(CIType { rdrs1, funct3, imm: Imm { data: nzuimm540 as u32, valid_bits: 6 } })))
            } else {
                Some(Instruction::RVC(RVC::Caddi(CIType { rdrs1, funct3, imm: Imm { data: nzuimm540 as u32, valid_bits: 6 } })))
            }
        } else if funct3 == 0b001 {
            if xlen == Xlen::X32 {
                Some(Instruction::RVC(RVC::Cjal(CJType { funct3, target: Imm { data: imm114981067315 as u32, valid_bits: 12 } })))
            } else {
                Some(Instruction::RVC(RVC::Caddiw(CIType { rdrs1, funct3, imm: Imm { data: nzuimm540 as u32, valid_bits: 6 } })))
            }
        } else if funct3 == 0b010 {
            if rdrs1 != 0 {
                Some(Instruction::RVC(RVC::Cli(CIType { rdrs1, funct3, imm: Imm { data: nzuimm540 as u32, valid_bits: 6 } })))
            } else {
                None
            }
        } else if funct3 == 0b011 {
            if rdrs1 == 2 {
                Some(Instruction::RVC(RVC::Caddi16sp(CIType { rdrs1, funct3, imm: Imm { data: nzimm946875 as u32, valid_bits: 10 } })))
            } else if rdrs1 != 0 && nzuimm171612 != 0 {
                Some(Instruction::RVC(RVC::Clui(CIType { rdrs1, funct3, imm: Imm { data: nzuimm171612, valid_bits: 18 } })))
            } else {
                None
            }
        } else if funct3 == 0b100 {
            if (funct6 & 0b11) == 0b00 {
                if !(xlen == Xlen::X32 && ins12) && nzuimm540 != 0 {
                    Some(Instruction::RVC(RVC::Csrli(CIType { rdrs1: r79_c, funct3, imm: Imm { data: nzuimm540 as u32, valid_bits: 6 } })))
                } else if xlen == Xlen::X128 && nzuimm540 == 0 {
                    Some(Instruction::RVC(RVC::Csrli64(CIType { rdrs1: r79_c, funct3, imm: Imm { data: nzuimm540 as u32, valid_bits: 6 } })))
                } else {
                    None
                }
            } else if (funct6 & 0b11) == 0b01 {
                if !(xlen == Xlen::X32 && ins12) && nzuimm540 != 0 {
                    Some(Instruction::RVC(RVC::Csrai(CIType { rdrs1: r79_c, funct3, imm: Imm { data: nzuimm540 as u32, valid_bits: 6 } })))
                } else if xlen == Xlen::X128 && nzuimm540 == 0 {
                    Some(Instruction::RVC(RVC::Csrai64(CIType { rdrs1: r79_c, funct3, imm: Imm { data: nzuimm540 as u32, valid_bits: 6 } })))
                } else {
                    None
                }
            } else if (funct6 & 0b11) == 0b10 {
                Some(Instruction::RVC(RVC::Candi(CIType { rdrs1: r79_c, funct3, imm: Imm { data: nzuimm540 as u32, valid_bits: 6 } })))
            } else {
                if !ins12 {
                    if funct2 == 0b00 {
                        Some(Instruction::RVC(RVC::Csub(CAType { rdrs1: r79_c, rs2: r24_c, funct2, funct6 })))
                    } else if funct2 == 0b01 {
                        Some(Instruction::RVC(RVC::Cxor(CAType { rdrs1: r79_c, rs2: r24_c, funct2, funct6 })))
                    } else if funct2 == 0b10 {
                        Some(Instruction::RVC(RVC::Cor(CAType { rdrs1: r79_c, rs2: r24_c, funct2, funct6 })))
                    } else {
                        Some(Instruction::RVC(RVC::Cand(CAType { rdrs1: r79_c, rs2: r24_c, funct2, funct6 })))
                    }
                } else {
                    if funct2 == 0b00 && spec_wide(xlen) {
                        Some(Instruction::RVC(RVC::Csubw(CAType { rdrs1: r79_c, rs2: r24_c, funct2, funct6 })))
                    } else if funct2 == 0b01 && spec_wide(xlen) {
                        Some(Instruction::RVC(RVC::Caddw(CAType { rdrs1: r79_c, rs2: r24_c, funct2, funct6 })))
                    } else {
                        None
                    }
                }
            }
        } else if funct3 == 0b101 {
            Some(Instruction::RVC(RVC::Cj(CJType { funct3, target: Imm { data: imm114981067315 as u32, valid_bits: 12 } })))
        } else if funct3 == 0b110 {
            Some(Instruction::RVC(RVC::Cbeqz(CBType { rs1: r79_c, funct3, off: Imm { data: imm84376215 as u32, valid_bits: 9 } })))
        } else {
            Some(Instruction::RVC(RVC::Cbnez(CBType { rs1: r79_c, funct3, off: Imm { data: imm84376215 as u32, valid_bits: 9 } })))
        }
    } else if opcode == 0b10 {
        if funct3 == 0b000 {
            if rdrs1 != 0 && !(xlen == Xlen::X32 && ins12) && nzuimm540 != 0 {
                Some(Instruction::RVC(RVC::Cslli(CIType { rdrs1, funct3, imm: Imm { data: nzuimm540 as u32, valid_bits: 6 } })))
            } else if rdrs1 != 0 && xlen == Xlen::X128 && nzuimm540 == 0 {
                Some(Instruction::RVC(RVC::Cslli64(CIType { rdrs1, funct3, imm: Imm { data: nzuimm540 as u32, valid_bits: 6 } })))
            } else {
                None
            }
        } else if funct3 == 0b001 {
            if xlen == Xlen::X32 || xlen == Xlen::X64 {
                Some(Instruction::RVC(RVC::Cfldsp(CIType { rdrs1, funct3, imm: Imm { data: uimm54386 as u32, valid_bits: 9 } })))
            } else if rdrs1 != 0 {
                Some(Instruction::RVC(RVC::Clqsp(CIType { rdrs1, funct3, imm: Imm { data: uimm5496 as u32, valid_bits: 10 } })))
            } else {
                None
            }
        } else if funct3 == 0b010 {
            if rdrs1 != 0 {
                Some(Instruction::RVC(RVC::Clwsp(CIType { rdrs1, funct3, imm: Imm { data: uimm54276 as u32, valid_bits: 8 } })))
            } else {
                None
            }
        } else if funct3 == 0b011 {
            if xlen == Xlen::X32 {
                Some(Instruction::RVC(RVC::Cflwsp(CIType { rdrs1, funct3, imm: Imm { data: uimm54276 as u32, valid_bits: 8 } })))
            } else if rdrs1 != 0 {
                Some(Instruction::RVC(RVC::Cldsp(CIType { rdrs1, funct3, imm: Imm { data: uimm54386 as u32, valid_bits: 9 } })))
            } else {
                None
            }
        } else if funct3 == 0b100 {
            if !ins12 {
                if rdrs1 != 0 && rs2 == 0 {
                    Some(Instruction::RVC(RVC::Cjr(CRType { rdrs1, rs2, funct4 })))
                } else if rdrs1 != 0 {
                    Some(Instruction::RVC(RVC::Cmv(CRType { rdrs1, rs2, funct4 })))
                } else {
                    None
                }
            } else {
                if rdrs1 == 0 && rs2 == 0 {
                    Some(Instruction::RVC(RVC::Cebreak(CRType { rdrs1, rs2, funct4 })))
                } else if rs2 == 0 {
                    Some(Instruction::RVC(RVC::Cjalr(CRType { rdrs1, rs2, funct4 })))
                } else if rdrs1 != 0 {
                    Some(Instruction::RVC(RVC::Cadd(CRType { rdrs1, rs2, funct4 })))
                } else {
                    None
                }
            }
        } else if funct3 == 0b101 {
            if xlen == Xlen::X32 || xlen == Xlen::X64 {
                Some(Instruction::RVC(RVC::Cfsdsp(CSSType { rs2, funct3, imm: Imm { data: uimm5386 as u32, valid_bits: 9 } })))
            } else {
                Some(Instruction::RVC(RVC::Csqsp(CSSType { rs2, funct3, imm: Imm { data: uimm54_96 as u32, valid_bits: 10 } })))
            }
        } else if funct3 == 0b110 {
            Some(Instruction::RVC(RVC::Cswsp(CSSType { rs2, funct3, imm: Imm { data: uimm5276 as u32, valid_bits: 8 } })))
        } else {
            if xlen == Xlen::X32 {
                Some(Instruction::RVC(RVC::Cfswsp(CSSType { rs2, funct3, imm: Imm { data: uimm5276 as u32, valid_bits: 8 } })))
            } else {
                Some(Instruction::RVC(RVC::Csdsp(CSSType { rs2, funct3, imm: Imm { data: uimm5386 as u32, valid_bits: 9 } })))
            }
        }
    } else {
        None
    }

}

/// Decode one 16-bit compressed word; `None` is an illegal encoding.
#[verifier::rlimit(50)]
pub fn resolve_u16(w: u16, xlen: Xlen) -> (r: Option<Instruction>)
    ensures
        r == spec_decode16(w, xlen),
{
    proof {
        assert(((w >> 2) & 0b111) < 8) by (bit_vector);
        assert(((w >> 7) & 0b111) < 8) by (bit_vector);
    }

    let opcode = w & 0b11;
    let funct3 = ((w >> 13) & 0b111) as u8;
    let funct2 = ((w >> 5) & 0b11) as u8;
    let funct6 = ((w >> 10) & 0b111111) as u8;
    let funct4 = ((w >> 12) & 0b1111) as u8;
    let ins12 = (w >> 12) & 0b1 == 1;
    let nzuimm549623 = (((w >> 11) & 0b11) << 4) | (((w >> 7) & 0b1111) << 6) | (((w >> 6) & 0b1)
        << 2) | (((w >> 5) & 0b1) << 3);
    let uimm5376 = (((w >> 10) & 0b111) << 3) | (((w >> 5) & 0b11) << 6);
    let uimm54876 = (((w >> 11) & 0b11) << 4) | (((w >> 10) & 0b1) << 8) | (((w >> 5) & 0b11) << 6);
    let uimm5326 = (((w >> 10) & 0b111) << 3) | (((w >> 5) & 0b1) << 6) | (((w >> 6) & 0b1) << 2);
    let nzuimm540 = ((w >> 2) & 0b11111) | (((w >> 12) & 0b1) << 5);
    let imm114981067315 = (((w >> 12) & 0b1) << 11) | (((w >> 11) & 0b1) << 4) | (((w >> 9) & 0b11)
        << 8) | (((w >> 8) & 0b1) << 10) | (((w >> 7) & 0b1) << 6) | (((w >> 6) & 0b1) << 7) | (((w
        >> 3) & 0b111) << 1) | (((w >> 2) & 0b1) << 5);
    let nzimm946875 = (((w >> 12) & 0b1) << 9) | (((w >> 6) & 0b1) << 4) | (((w >> 5) & 0b1) << 6)
        | (((w >> 3) & 0b11) << 7) | (((w >> 2) & 0b1) << 5);
    let nzuimm171612 = ((((w as u32) >> 12) & 0b1) << 17) | ((((w as u32) >> 2) & 0b11111) << 12);
    let imm84376215 = (((w >> 12) & 0b1) << 8) | (((w >> 10) & 0b11) << 3) | (((w >> 5) & 0b11)
        << 6) | (((w >> 3) & 0b11) << 1) | (((w >> 2) & 0b1) << 5);
    let uimm54386 = (((w >> 12) & 0b1) << 5) | (((w >> 5) & 0b11) << 3) | (((w >> 2) & 0b111) << 6);
    let uimm5496 = (((w >> 12) & 0b1) << 5) | (((w >> 6) & 0b1) << 4) | (((w >> 2) & 0b1111) << 6);
    let uimm54276 = (((w >> 12) & 0b1) << 5) | (((w >> 4) & 0b111) << 2) | (((w >> 2) & 0b11) << 6);
    let uimm5386 = (((w >> 10) & 0b111) << 3) | (((w >> 7) & 0b111) << 6);
    let uimm54_96 = (((w >> 11) & 0b11) << 4) | (((w >> 7) & 0b1111) << 6);
    let uimm5276 = (((w >> 9) & 0b1111) << 2) | (((w >> 7) & 0b11) << 6);
    let rdrs1 = ((w >> 7) & 0b11111) as u8;
    let rs2 = ((w >> 2) & 0b11111) as u8;

    let r24_c = (((w >> 2) & 0b111) + 8) as u8;
    let r79_c = (((w >> 7) & 0b111) + 8) as u8;
    let wide = match xlen {
        Xlen::X32 => false,
        Xlen::X64 => true,
        Xlen::X128 => true,
    };

    if opcode == 0b00 {
        if funct3 == 0b000 {
            if nzuimm549623 != 0 {
                Some(Instruction::RVC(RVC::Caddi4spn(CIWType { rd: r24_c, funct3, imm: Imm::new(nzuimm549623 as u32, 10) })))
            } else {
                None
            }
        } else if funct3 == 0b001 {
            if xlen == Xlen::X32 || xlen == Xlen::X64 {
                Some(Instruction::RVC(RVC::Cfld(CLType { rd: r24_c, rs1: r79_c, funct3, imm: Imm::new(uimm5376 as u32, 8) })))
            } else {
                Some(Instruction::RVC(RVC::Clq(CLType { rd: r24_c, rs1: r79_c, funct3, imm: Imm::new(uimm54876 as u32, 9) })))
            }
        } else if funct3 == 0b010 {
            Some(Instruction::RVC(RVC::Clw(CLType { rd: r24_c, rs1: r79_c, funct3, imm: Imm::new(uimm5326 as u32, 7) })))
        } else if funct3 == 0b011 {
            if xlen == Xlen::X32 {
                Some(Instruction::RVC(RVC::Cflw(CLType { rd: r24_c, rs1: r79_c, funct3, imm: Imm::new(uimm5326 as u32, 7) })))
            } else {
                Some(Instruction::RVC(RVC::Cld(CLType { rd: r24_c, rs1: r79_c, funct3, imm: Imm::new(uimm5376 as u32, 8) })))
            }
        } else if funct3 == 0b101 {
            if xlen == Xlen::X32 || xlen == Xlen::X64 {
                Some(Instruction::RVC(RVC::Cfsd(CSType { rs1: r79_c, rs2: r24_c, funct3, imm: Imm::new(uimm5376 as u32, 8) })))
            } else {
                Some(Instruction::RVC(RVC::Csq(CSType { rs1: r79_c, rs2: r24_c, funct3, imm: Imm::new(uimm54876 as u32, 9) })))
            }
        } else if funct3 == 0b110 {
            Some(Instruction::RVC(RVC::Csw(CSType { rs1: r79_c, rs2: r24_c, funct3, imm: Imm::new(uimm5326 as u32, 7) })))
        } else if funct3 == 0b111 {
            if xlen == Xlen::X32 {
                Some(Instruction::RVC(RVC::Cfsw(CSType { rs1: r79_c, rs2: r24_c, funct3, imm: Imm::new(uimm5326 as u32, 7) })))
            } else {
                Some(Instruction::RVC(RVC::Csd(CSType { rs1: r79_c, rs2: r24_c, funct3, imm: Imm::new(uimm5376 as u32, 8) })))
            }
        } else {
            None
        }
    } else if opcode == 0b01 {
        if funct3 == 0b000 {
            if rdrs1 == 0 {
                Some(Instruction::RVC(RVC::Cnop(CIType { rdrs1, funct3, imm: Imm::new(nzuimm540 as u32, 6) })))
            } else {
                Some(Instruction::RVC(RVC::Caddi(CIType { rdrs1, funct3, imm: Imm::new(nzuimm540 as u32, 6) })))
            }
        } else if funct3 == 0b001 {
            if xlen == Xlen::X32 {
                Some(Instruction::RVC(RVC::Cjal(CJType { funct3, target: Imm::new(imm114981067315 as u32, 12) })))
            } else {
                Some(Instruction::RVC(RVC::Caddiw(CIType { rdrs1, funct3, imm: Imm::new(nzuimm540 as u32, 6) })))
            }
        } else if funct3 == 0b010 {
            if rdrs1 != 0 {
                Some(Instruction::RVC(RVC::Cli(CIType { rdrs1, funct3, imm: Imm::new(nzuimm540 as u32, 6) })))
            } else {
                None
            }
        } else if funct3 == 0b011 {
            if rdrs1 == 2 {
                Some(Instruction::RVC(RVC::Caddi16sp(CIType { rdrs1, funct3, imm: Imm::new(nzimm946875 as u32, 10) })))
            } else if rdrs1 != 0 && nzuimm171612 != 0 {
                Some(Instruction::RVC(RVC::Clui(CIType { rdrs1, funct3, imm: Imm::new(nzuimm171612, 18) })))
            } else {
                None
            }
        } else if funct3 == 0b100 {
            if (funct6 & 0b11) == 0b00 {
                if !(xlen == Xlen::X32 && ins12) && nzuimm540 != 0 {
                    Some(Instruction::RVC(RVC::Csrli(CIType { rdrs1: r79_c, funct3, imm: Imm::new(nzuimm540 as u32, 6) })))
                } else if xlen == Xlen::X128 && nzuimm540 == 0 {
                    Some(Instruction::RVC(RVC::Csrli64(CIType { rdrs1: r79_c, funct3, imm: Imm::new(nzuimm540 as u32, 6) })))
                } else {
                    None
                }
            } else if (funct6 & 0b11) == 0b01 {
                if !(xlen == Xlen::X32 && ins12) && nzuimm540 != 0 {
                    Some(Instruction::RVC(RVC::Csrai(CIType { rdrs1: r79_c, funct3, imm: Imm::new(nzuimm540 as u32, 6) })))
                } else if xlen == Xlen::X128 && nzuimm540 == 0 {
                    Some(Instruction::RVC(RVC::Csrai64(CIType { rdrs1: r79_c, funct3, imm: Imm::new(nzuimm540 as u32, 6) })))
                } else {
                    None
                }
            } else if (funct6 & 0b11) == 0b10 {
                Some(Instruction::RVC(RVC::Candi(CIType { rdrs1: r79_c, funct3, imm: Imm::new(nzuimm540 as u32, 6) })))
            } else {
                if !ins12 {
                    if funct2 == 0b00 {
                        Some(Instruction::RVC(RVC::Csub(CAType { rdrs1: r79_c, rs2: r24_c, funct2, funct6 })))
                    } else if funct2 == 0b01 {
                        Some(Instruction::RVC(RVC::Cxor(CAType { rdrs1: r79_c, rs2: r24_c, funct2, funct6 })))
                    } else if funct2 == 0b10 {
                        Some(Instruction::RVC(RVC::Cor(CAType { rdrs1: r79_c, rs2: r24_c, funct2, funct6 })))
                    } else {
                        Some(Instruction::RVC(RVC::Cand(CAType { rdrs1: r79_c, rs2: r24_c, funct2, funct6 })))
                    }
                } else {
                    if funct2 == 0b00 && wide {
                        Some(Instruction::RVC(RVC::Csubw(CAType { rdrs1: r79_c, rs2: r24_c, funct2, funct6 })))
                    } else if funct2 == 0b01 && wide {
                        Some(Instruction::RVC(RVC::Caddw(CAType { rdrs1: r79_c, rs2: r24_c, funct2, funct6 })))
                    } else {
                        None
                    }
                }
            }
        } else if funct3 == 0b101 {
            Some(Instruction::RVC(RVC::Cj(CJType { funct3, target: Imm::new(imm114981067315 as u32, 12) })))
        } else if funct3 == 0b110 {
            Some(Instruction::RVC(RVC::Cbeqz(CBType { rs1: r79_c, funct3, off: Imm::new(imm84376215 as u32, 9) })))
        } else {
            Some(Instruction::RVC(RVC::Cbnez(CBType { rs1: r79_c, funct3, off: Imm::new(imm84376215 as u32, 9) })))
        }
    } else if opcode == 0b10 {
        if funct3 == 0b000 {
            if rdrs1 != 0 && !(xlen == Xlen::X32 && ins12) && nzuimm540 != 0 {
                Some(Instruction::RVC(RVC::Cslli(CIType { rdrs1, funct3, imm: Imm::new(nzuimm540 as u32, 6) })))
            } else if rdrs1 != 0 && xlen == Xlen::X128 && nzuimm540 == 0 {
                Some(Instruction::RVC(RVC::Cslli64(CIType { rdrs1, funct3, imm: Imm::new(nzuimm540 as u32, 6) })))
            } else {
                None
            }
        } else if funct3 == 0b001 {
            if xlen == Xlen::X32 || xlen == Xlen::X64 {
                Some(Instruction::RVC(RVC::Cfldsp(CIType { rdrs1, funct3, imm: Imm::new(uimm54386 as u32, 9) })))
            } else if rdrs1 != 0 {
                Some(Instruction::RVC(RVC::Clqsp(CIType { rdrs1, funct3, imm: Imm::new(uimm5496 as u32, 10) })))
            } else {
                None
            }
        } else if funct3 == 0b010 {
            if rdrs1 != 0 {
                Some(Instruction::RVC(RVC::Clwsp(CIType { rdrs1, funct3, imm: Imm::new(uimm54276 as u32, 8) })))
            } else {
                None
            }
        } else if funct3 == 0b011 {
            if xlen == Xlen::X32 {
                Some(Instruction::RVC(RVC::Cflwsp(CIType { rdrs1, funct3, imm: Imm::new(uimm54276 as u32, 8) })))
            } else if rdrs1 != 0 {
                Some(Instruction::RVC(RVC::Cldsp(CIType { rdrs1, funct3, imm: Imm::new(uimm54386 as u32, 9) })))
            } else {
                None
            }
        } else if funct3 == 0b100 {
            if !ins12 {
                if rdrs1 != 0 && rs2 == 0 {
                    Some(Instruction::RVC(RVC::Cjr(CRType { rdrs1, rs2, funct4 })))
                } else if rdrs1 != 0 {
                    Some(Instruction::RVC(RVC::Cmv(CRType { rdrs1, rs2, funct4 })))
                } else {
                    None
                }
            } else {
                if rdrs1 == 0 && rs2 == 0 {
                    Some(Instruction::RVC(RVC::Cebreak(CRType { rdrs1, rs2, funct4 })))
                } else if rs2 == 0 {
                    Some(Instruction::RVC(RVC::Cjalr(CRType { rdrs1, rs2, funct4 })))
                } else if rdrs1 != 0 {
                    Some(Instruction::RVC(RVC::Cadd(CRType { rdrs1, rs2, funct4 })))
                } else {
                    None
                }
            }
        } else if funct3 == 0b101 {
            if xlen == Xlen::X32 || xlen == Xlen::X64 {
                Some(Instruction::RVC(RVC::Cfsdsp(CSSType { rs2, funct3, imm: Imm::new(uimm5386 as u32, 9) })))
            } else {
                Some(Instruction::RVC(RVC::Csqsp(CSSType { rs2, funct3, imm: Imm::new(uimm54_96 as u32, 10) })))
            }
        } else if funct3 == 0b110 {
            Some(Instruction::RVC(RVC::Cswsp(CSSType { rs2, funct3, imm: Imm::new(uimm5276 as u32, 8) })))
        } else {
            if xlen == Xlen::X32 {
                Some(Instruction::RVC(RVC::Cfswsp(CSSType { rs2, funct3, imm: Imm::new(uimm5276 as u32, 8) })))
            } else {
                Some(Instruction::RVC(RVC::Csdsp(CSSType { rs2, funct3, imm: Imm::new(uimm5386 as u32, 9) })))
            }
        }
    } else {
        None
    }

}


/// A fetch fault: an encoding the decoder rejected, with the address it
/// was fetched from and its raw bits.
#[derive(Clone, Copy, PartialEq, Eq, Structural, Debug)]
pub enum FetchError {
    IllegalInstruction16 { addr: Usize, ins: u16 },
    IllegalInstruction32 { addr: Usize, ins: u32 },
    InstructionLength { addr: Usize },
}

/// The fetch stage: a thin driver over memory that reads one or two
/// 16-bit parcels under execute intent, picks the instruction length
/// from the low bits of the first, and hands the bits to the decoder.
pub struct Fetch {
    pub xlen: Xlen,
}

impl Fetch {
    pub fn new(xlen: Xlen) -> (r: Fetch)
        ensures
            r.xlen == xlen,
    {
        Fetch { xlen }
    }

    /// What fetching at `pc` yields: the decoded instruction and the
    /// address of the next sequential instruction, or the first fault.
    ///
    /// A first parcel whose low two bits are not `11` is a compressed
    /// instruction; one with low bits `11` and bits `4:2` not all ones
    /// is a 32-bit instruction whose second parcel sits at `pc + 2`,
    /// combined little-endian; anything longer is rejected.
    pub open spec fn spec_next_instruction(mem: Physical, pc: Usize, xlen: Xlen) -> Result<
        (Instruction, Usize),
        Error,
    > {
        match mem.spec_read_uint(pc.as_nat() as u64, 2, Intent::Execute) {
            Err(e) => Err(Error::Mem64(e)),
            Ok(v) => {
                let ins = v as u16;
                if ins & 0b11 != 0b11 {
                    match spec_decode16(ins, xlen) {
                        Some(i) => Ok((i, pc.spec_wrapping_add_u32(2))),
                        None => Err(
                            Error::Fetch(FetchError::IllegalInstruction16 { addr: pc, ins }),
                        ),
                    }
                } else if ins & 0b11100 != 0b11100 {
                    let pc2 = pc.spec_wrapping_add_u32(2);
                    match mem.spec_read_uint(pc2.as_nat() as u64, 2, Intent::Execute) {
                        Err(e) => Err(Error::Mem64(e)),
                        Ok(v2) => {
                            let w = (ins as u32) | ((v2 as u32) << 16);
                            match spec_decode32(w, xlen) {
                                Some(i) => Ok((i, pc.spec_wrapping_add_u32(4))),
                                None => Err(
                                    Error::Fetch(
                                        FetchError::IllegalInstruction32 { addr: pc, ins: w },
                                    ),
                                ),
                            }
                        },
                    }
                } else {
                    Err(Error::Fetch(FetchError::InstructionLength { addr: pc }))
                }
            },
        }
    }

    /// Fetch and decode the instruction at `pc`.
    pub fn next_instruction(&self, mem: &Physical, pc: Usize) -> (r: Result<
        (Instruction, Usize),
        Error,
    >)
        requires
            mem.wf(),
        ensures
            r == Fetch::spec_next_instruction(*mem, pc, self.xlen),
            r matches Ok(p) ==> ins_wf(p.0),
    {
        let addr = pc;
        let ins = match mem.fetch_ins_u16(pc.to_mem_addr()) {
            Ok(v) => v,
            Err(e) => {
                return Err(Error::Mem64(e));
            },
        };
        if ins & 0b11 != 0b11 {
            proof {
                lemma_decode16_wf(ins, self.xlen);
            }
            match resolve_u16(ins, self.xlen) {
                Some(i) => Ok((i, pc.wrapping_add_u32(2))),
                None => Err(Error::Fetch(FetchError::IllegalInstruction16 { addr, ins })),
            }
        } else if ins & 0b11100 != 0b11100 {
            let pc2 = pc.wrapping_add_u32(2);
            let second = match mem.fetch_ins_u16(pc2.to_mem_addr()) {
                Ok(v) => v,
                Err(e) => {
                    return Err(Error::Mem64(e));
                },
            };
            let w = (ins as u32) | ((second as u32) << 16);
            proof {
                lemma_decode32_wf(w, self.xlen);
            }
            match resolve_u32(w, self.xlen) {
                Some(i) => Ok((i, pc.wrapping_add_u32(4))),
                None => Err(Error::Fetch(FetchError::IllegalInstruction32 { addr, ins: w })),
            }
        } else {
            Err(Error::Fetch(FetchError::InstructionLength { addr }))
        }
    }
}


impl UType {
    /// Register fields in range, immediate payload disciplined.
    pub open spec fn wf(self) -> bool {
        self.rd < 32 && self.imm.wf()
    }
}

impl JType {
    pub open spec fn wf(self) -> bool {
        self.rd < 32 && self.imm.wf()
    }
}

impl IType {
    pub open spec fn wf(self) -> bool {
        self.rd < 32 && self.rs1 < 32 && self.imm.wf()
    }
}

impl SType {
    pub open spec fn wf(self) -> bool {
        self.rs1 < 32 && self.rs2 < 32 && self.imm.wf()
    }
}

impl BType {
    pub open spec fn wf(self) -> bool {
        self.rs1 < 32 && self.rs2 < 32 && self.imm.wf()
    }
}

impl RType {
    pub open spec fn wf(self) -> bool {
        self.rd < 32 && self.rs1 < 32 && self.rs2 < 32
    }
}

impl CsrType {
    pub open spec fn wf(self) -> bool {
        self.rd < 32 && self.rs1uimm < 32 && self.csr < 4096
    }
}

impl CRType {
    pub open spec fn wf(self) -> bool {
        self.rdrs1 < 32 && self.rs2 < 32
    }
}

impl CIType {
    pub open spec fn wf(self) -> bool {
        self.rdrs1 < 32 && self.imm.wf()
    }
}

impl CSSType {
    pub open spec fn wf(self) -> bool {
        self.rs2 < 32 && self.imm.wf()
    }
}

impl CIWType {
    pub open spec fn wf(self) -> bool {
        self.rd < 32 && self.imm.wf()
    }
}

impl CLType {
    pub open spec fn wf(self) -> bool {
        self.rd < 32 && self.rs1 < 32 && self.imm.wf()
    }
}

impl CSType {
    pub open spec fn wf(self) -> bool {
        self.rs1 < 32 && self.rs2 < 32 && self.imm.wf()
    }
}

impl CAType {
    pub open spec fn wf(self) -> bool {
        self.rdrs1 < 32 && self.rs2 < 32
    }
}

impl CBType {
    pub open spec fn wf(self) -> bool {
        self.rs1 < 32 && self.off.wf()
    }
}

impl CJType {
    pub open spec fn wf(self) -> bool {
        self.target.wf()
    }
}

pub open spec fn rv32i_wf(i: RV32I) -> bool {
    match i {
        RV32I::Lui(t) => t.wf(),
        RV32I::Auipc(t) => t.wf(),
        RV32I::Jal(t) => t.wf(),
        RV32I::Jalr(t) => t.wf(),
        RV32I::Beq(t) => t.wf(),
        RV32I::Bne(t) => t.wf(),
        RV32I::Blt(t) => t.wf(),
        RV32I::Bge(t) => t.wf(),
        RV32I::Bltu(t) => t.wf(),
        RV32I::Bgeu(t) => t.wf(),
        RV32I::Lb(t) => t.wf(),
        RV32I::Lh(t) => t.wf(),
        RV32I::Lw(t) => t.wf(),
        RV32I::Lbu(t) => t.wf(),
        RV32I::Lhu(t) => t.wf(),
        RV32I::Sb(t) => t.wf(),
        RV32I::Sh(t) => t.wf(),
        RV32I::Sw(t) => t.wf(),
        RV32I::Addi(t) => t.wf(),
        RV32I::Slti(t) => t.wf(),
        RV32I::Sltiu(t) => t.wf(),
        RV32I::Xori(t) => t.wf(),
        RV32I::Ori(t) => t.wf(),
        RV32I::Andi(t) => t.wf(),
        RV32I::Slli(t) => t.wf(),
        RV32I::Srli(t) => t.wf(),
        RV32I::Srai(t) => t.wf(),
        RV32I::Add(t) => t.wf(),
        RV32I::Sub(t) => t.wf(),
        RV32I::Sll(t) => t.wf(),
        RV32I::Slt(t) => t.wf(),
        RV32I::Sltu(t) => t.wf(),
        RV32I::Xor(t) => t.wf(),
        RV32I::Srl(t) => t.wf(),
        RV32I::Sra(t) => t.wf(),
        RV32I::Or(t) => t.wf(),
        RV32I::And(t) => t.wf(),
        RV32I::Fence(t) => t.wf(),
        RV32I::Ecall(t) => t.wf(),
        RV32I::Ebreak(t) => t.wf(),
    }
}

pub open spec fn rv64i_wf(i: RV64I) -> bool {
    match i {
        RV64I::Lwu(t) => t.wf(),
        RV64I::Ld(t) => t.wf(),
        RV64I::Sd(t) => t.wf(),
        RV64I::Sll(t) => t.wf(),
        RV64I::Srl(t) => t.wf(),
        RV64I::Sra(t) => t.wf(),
        RV64I::Slli(t) => t.wf(),
        RV64I::Srli(t) => t.wf(),
        RV64I::Srai(t) => t.wf(),
        RV64I::Addiw(t) => t.wf(),
        RV64I::Slliw(t) => t.wf(),
        RV64I::Srliw(t) => t.wf(),
        RV64I::Sraiw(t) => t.wf(),
        RV64I::Addw(t) => t.wf(),
        RV64I::Subw(t) => t.wf(),
        RV64I::Sllw(t) => t.wf(),
        RV64I::Srlw(t) => t.wf(),
        RV64I::Sraw(t) => t.wf(),
    }
}

pub open spec fn rvzicsr_wf(i: RVZicsr) -> bool {
    match i {
        RVZicsr::Csrrw(t) => t.wf(),
        RVZicsr::Csrrs(t) => t.wf(),
        RVZicsr::Csrrc(t) => t.wf(),
        RVZicsr::Csrrwi(t) => t.wf(),
        RVZicsr::Csrrsi(t) => t.wf(),
        RVZicsr::Csrrci(t) => t.wf(),
    }
}

pub open spec fn rvc_wf(i: RVC) -> bool {
    match i {
        RVC::Caddi4spn(t) => t.wf(),
        RVC::Cfld(t) => t.wf(),
        RVC::Clq(t) => t.wf(),
        RVC::Clw(t) => t.wf(),
        RVC::Cflw(t) => t.wf(),
        RVC::Cld(t) => t.wf(),
        RVC::Cfsd(t) => t.wf(),
        RVC::Csq(t) => t.wf(),
        RVC::Csw(t) => t.wf(),
        RVC::Cfsw(t) => t.wf(),
        RVC::Csd(t) => t.wf(),
        RVC::Cnop(t) => t.wf(),
        RVC::Caddi(t) => t.wf(),
        RVC::Cjal(t) => t.wf(),
        RVC::Caddiw(t) => t.wf(),
        RVC::Cli(t) => t.wf(),
        RVC::Caddi16sp(t) => t.wf(),
        RVC::Clui(t) => t.wf(),
        RVC::Csrli(t) => t.wf(),
        RVC::Csrli64(t) => t.wf(),
        RVC::Csrai(t) => t.wf(),
        RVC::Csrai64(t) => t.wf(),
        RVC::Candi(t) => t.wf(),
        RVC::Csub(t) => t.wf(),
        RVC::Cxor(t) => t.wf(),
        RVC::Cor(t) => t.wf(),
        RVC::Cand(t) => t.wf(),
        RVC::Csubw(t) => t.wf(),
        RVC::Caddw(t) => t.wf(),
        RVC::Cj(t) => t.wf(),
        RVC::Cbeqz(t) => t.wf(),
        RVC::Cbnez(t) => t.wf(),
        RVC::Cslli(t) => t.wf(),
        RVC::Cslli64(t) => t.wf(),
        RVC::Cfldsp(t) => t.wf(),
        RVC::Clqsp(t) => t.wf(),
        RVC::Clwsp(t) => t.wf(),
        RVC::Cflwsp(t) => t.wf(),
        RVC::Cldsp(t) => t.wf(),
        RVC::Cjr(t) => t.wf(),
        RVC::Cmv(t) => t.wf(),
        RVC::Cebreak(t) => t.wf(),
        RVC::Cjalr(t) => t.wf(),
        RVC::Cadd(t) => t.wf(),
        RVC::Cfsdsp(t) => t.wf(),
        RVC::Csqsp(t) => t.wf(),
        RVC::Cswsp(t) => t.wf(),
        RVC::Cfswsp(t) => t.wf(),
        RVC::Csdsp(t) => t.wf(),
    }
}

/// Every decoded instruction has its register fields in range and its
/// immediate payload disciplined.
pub open spec fn ins_wf(i: Instruction) -> bool {
    match i {
        Instruction::RV32I(a) => rv32i_wf(a),
        Instruction::RV64I(a) => rv64i_wf(a),
        Instruction::RVC(a) => rvc_wf(a),
        Instruction::RVZicsr(a) => rvzicsr_wf(a),
    }
}

/// Whatever the 32-bit decoder accepts is well-formed.
pub proof fn lemma_decode32_wf(w: u32, xlen: Xlen)
    ensures
        spec_decode32(w, xlen) matches Some(i) ==> ins_wf(i),
{
    assert(((w >> 7) & 0x1F) < 32 && ((w >> 15) & 0x1F) < 32 && ((w >> 20) & 0x1F) < 32 && ((w
        >> 20) & 0xFFF) < 4096) by (bit_vector);
}

/// Whatever the 16-bit decoder accepts is well-formed.
pub proof fn lemma_decode16_wf(w: u16, xlen: Xlen)
    ensures
        spec_decode16(w, xlen) matches Some(i) ==> ins_wf(i),
{
    assert(((w >> 2) & 0b111) < 8 && ((w >> 7) & 0b111) < 8 && ((w >> 7) & 0b11111) < 32 && ((w
        >> 2) & 0b11111) < 32) by (bit_vector);
}


/// Law: whatever the 32-bit decoder accepts lies in the base set, the
/// control-register set, or — only on a 64-bit-or-wider machine — the
/// RV64I additions; it is never a compressed instruction.
pub proof fn lemma_decode32_class(w: u32, xlen: Xlen)
    ensures
        spec_decode32(w, xlen) matches Some(i) ==> match i {
            Instruction::RV32I(_) => true,
            Instruction::RVZicsr(_) => true,
            Instruction::RV64I(_) => spec_wide(xlen),
            Instruction::RVC(_) => false,
        },
{
}

/// Law: whatever the 16-bit decoder accepts is a compressed
/// instruction, and its width-gated forms respect the machine width:
/// the RV32-only jump never decodes on a wider machine, the
/// 64-bit-and-wider forms never decode on a 32-bit one, and the
/// 128-bit forms only decode on a 128-bit one.
pub proof fn lemma_decode16_class(w: u16, xlen: Xlen)
    ensures
        spec_decode16(w, xlen) matches Some(i) ==> match i {
            Instruction::RVC(c) => match c {
                RVC::Cjal(_) => xlen == Xlen::X32,
                RVC::Caddiw(_) | RVC::Cld(_) | RVC::Csd(_) => xlen != Xlen::X32,
                RVC::Clq(_) | RVC::Csq(_) | RVC::Csrli64(_) | RVC::Csrai64(_) | RVC::Cslli64(_)
                    | RVC::Clqsp(_) | RVC::Csqsp(_) => xlen == Xlen::X128,
                _ => true,
            },
            _ => false,
        },
{
}


/// A compressed register field re-encoded: the register number minus 8,
/// in three bits.
pub open spec fn enc_creg(r: u8) -> u32 {
    (((r - 8) as u8) as u32) & 7
}

/// A full register field re-encoded, in five bits.
pub open spec fn enc_reg(r: u8) -> u32 {
    (r as u32) & 0x1F
}

/// A funct3 field re-encoded into bits 15:13.
pub open spec fn enc_f3(f: u8) -> u32 {
    ((f as u32) & 7) << 13
}

/// The scatters: each places an immediate form's payload bits back into
/// their instruction-word positions, inverting the decoder's gather.
pub open spec fn sc_ciw(d: u32) -> u32 {
    (((d >> 4) & 3) << 11) | (((d >> 6) & 0xF) << 7) | (((d >> 2) & 1) << 6) | (((d >> 3) & 1) << 5)
}

pub open spec fn sc_5376(d: u32) -> u32 {
    (((d >> 3) & 7) << 10) | (((d >> 6) & 3) << 5)
}

pub open spec fn sc_54876(d: u32) -> u32 {
    (((d >> 4) & 3) << 11) | (((d >> 8) & 1) << 10) | (((d >> 6) & 3) << 5)
}

pub open spec fn sc_5326(d: u32) -> u32 {
    (((d >> 3) & 7) << 10) | (((d >> 2) & 1) << 6) | (((d >> 6) & 1) << 5)
}

pub open spec fn sc_540(d: u32) -> u32 {
    ((d & 0x1F) << 2) | (((d >> 5) & 1) << 12)
}

pub open spec fn sc_cj(d: u32) -> u32 {
    (((d >> 11) & 1) << 12) | (((d >> 4) & 1) << 11) | (((d >> 8) & 3) << 9) | (((d >> 10) & 1)
        << 8) | (((d >> 6) & 1) << 7) | (((d >> 7) & 1) << 6) | (((d >> 1) & 7) << 3) | (((d >> 5)
        & 1) << 2)
}

pub open spec fn sc_946875(d: u32) -> u32 {
    (((d >> 9) & 1) << 12) | (((d >> 4) & 1) << 6) | (((d >> 6) & 1) << 5) | (((d >> 7) & 3) << 3)
        | (((d >> 5) & 1) << 2)
}

pub open spec fn sc_171612(d: u32) -> u32 {
    (((d >> 17) & 1) << 12) | (((d >> 12) & 0x1F) << 2)
}

pub open spec fn sc_84376215(d: u32) -> u32 {
    (((d >> 8) & 1) << 12) | (((d >> 3) & 3) << 10) | (((d >> 6) & 3) << 5) | (((d >> 1) & 3) << 3)
        | (((d >> 5) & 1) << 2)
}

pub open spec fn sc_54386(d: u32) -> u32 {
    (((d >> 5) & 1) << 12) | (((d >> 3) & 3) << 5) | (((d >> 6) & 7) << 2)
}

pub open spec fn sc_5496(d: u32) -> u32 {
    (((d >> 5) & 1) << 12) | (((d >> 4) & 1) << 6) | (((d >> 6) & 0xF) << 2)
}

pub open spec fn sc_54276(d: u32) -> u32 {
    (((d >> 5) & 1) << 12) | (((d >> 2) & 7) << 4) | (((d >> 6) & 3) << 2)
}

pub open spec fn sc_5386(d: u32) -> u32 {
    (((d >> 3) & 7) << 10) | (((d >> 6) & 7) << 7)
}

pub open spec fn sc_54_96(d: u32) -> u32 {
    (((d >> 4) & 3) << 11) | (((d >> 6) & 0xF) << 7)
}

pub open spec fn sc_5276(d: u32) -> u32 {
    (((d >> 2) & 0xF) << 9) | (((d >> 6) & 3) << 7)
}

/// The 16-bit encoder: the word a decoded compressed instruction came
/// from, rebuilt bit-for-bit from its fields.
pub open spec fn spec_encode16(c: RVC) -> u16 {
    (match c {
        RVC::Caddi4spn(t) => 0 | (enc_creg(t.rd) << 2) | sc_ciw(t.imm.data) | enc_f3(t.funct3),
        RVC::Cfld(t) => 0 | (enc_creg(t.rd) << 2) | (enc_creg(t.rs1) << 7) | sc_5376(t.imm.data)
            | enc_f3(t.funct3),
        RVC::Clq(t) => 0 | (enc_creg(t.rd) << 2) | (enc_creg(t.rs1) << 7) | sc_54876(t.imm.data)
            | enc_f3(t.funct3),
        RVC::Clw(t) => 0 | (enc_creg(t.rd) << 2) | (enc_creg(t.rs1) << 7) | sc_5326(t.imm.data)
            | enc_f3(t.funct3),
        RVC::Cflw(t) => 0 | (enc_creg(t.rd) << 2) | (enc_creg(t.rs1) << 7) | sc_5326(t.imm.data)
            | enc_f3(t.funct3),
        RVC::Cld(t) => 0 | (enc_creg(t.rd) << 2) | (enc_creg(t.rs1) << 7) | sc_5376(t.imm.data)
            | enc_f3(t.funct3),
        RVC::Cfsd(t) => 0 | (enc_creg(t.rs2) << 2) | (enc_creg(t.rs1) << 7) | sc_5376(t.imm.data)
            | enc_f3(t.funct3),
        RVC::Csq(t) => 0 | (enc_creg(t.rs2) << 2) | (enc_creg(t.rs1) << 7) | sc_54876(t.imm.data)
            | enc_f3(t.funct3),
        RVC::Csw(t) => 0 | (enc_creg(t.rs2) << 2) | (enc_creg(t.rs1) << 7) | sc_5326(t.imm.data)
            | enc_f3(t.funct3),
        RVC::Cfsw(t) => 0 | (enc_creg(t.rs2) << 2) | (enc_creg(t.rs1) << 7) | sc_5326(t.imm.data)
            | enc_f3(t.funct3),
        RVC::Csd(t) => 0 | (enc_creg(t.rs2) << 2) | (enc_creg(t.rs1) << 7) | sc_5376(t.imm.data)
            | enc_f3(t.funct3),
        RVC::Cnop(t) => 1 | (enc_reg(t.rdrs1) << 7) | sc_540(t.imm.data) | enc_f3(t.funct3),
        RVC::Caddi(t) => 1 | (enc_reg(t.rdrs1) << 7) | sc_540(t.imm.data) | enc_f3(t.funct3),
        RVC::Cjal(t) => 1 | sc_cj(t.target.data) | enc_f3(t.funct3),
        RVC::Caddiw(t) => 1 | (enc_reg(t.rdrs1) << 7) | sc_540(t.imm.data) | enc_f3(t.funct3),
        RVC::Cli(t) => 1 | (enc_reg(t.rdrs1) << 7) | sc_540(t.imm.data) | enc_f3(t.funct3),
        RVC::Caddi16sp(t) => 1 | (enc_reg(t.rdrs1) << 7) | sc_946875(t.imm.data) | enc_f3(
            t.funct3,
        ),
        RVC::Clui(t) => 1 | (enc_reg(t.rdrs1) << 7) | sc_171612(t.imm.data) | enc_f3(t.funct3),
        RVC::Csrli(t) => 1 | (enc_creg(t.rdrs1) << 7) | sc_540(t.imm.data) | (0u32 << 10) | enc_f3(
            t.funct3,
        ),
        RVC::Csrli64(t) => 1 | (enc_creg(t.rdrs1) << 7) | sc_540(t.imm.data) | (0u32 << 10) | enc_f3(
            t.funct3,
        ),
        RVC::Csrai(t) => 1 | (enc_creg(t.rdrs1) << 7) | sc_540(t.imm.data) | (1u32 << 10) | enc_f3(
            t.funct3,
        ),
        RVC::Csrai64(t) => 1 | (enc_creg(t.rdrs1) << 7) | sc_540(t.imm.data) | (1u32 << 10) | enc_f3(
            t.funct3,
        ),
        RVC::Candi(t) => 1 | (enc_creg(t.rdrs1) << 7) | sc_540(t.imm.data) | (2u32 << 10) | enc_f3(
            t.funct3,
        ),
        RVC::Csub(t) => 1 | (enc_creg(t.rs2) << 2) | (((t.funct2 as u32) & 3) << 5) | (enc_creg(
            t.rdrs1,
        ) << 7) | (((t.funct6 as u32) & 0x3F) << 10),
        RVC::Cxor(t) => 1 | (enc_creg(t.rs2) << 2) | (((t.funct2 as u32) & 3) << 5) | (enc_creg(
            t.rdrs1,
        ) << 7) | (((t.funct6 as u32) & 0x3F) << 10),
        RVC::Cor(t) => 1 | (enc_creg(t.rs2) << 2) | (((t.funct2 as u32) & 3) << 5) | (enc_creg(
            t.rdrs1,
        ) << 7) | (((t.funct6 as u32) & 0x3F) << 10),
        RVC::Cand(t) => 1 | (enc_creg(t.rs2) << 2) | (((t.funct2 as u32) & 3) << 5) | (enc_creg(
            t.rdrs1,
        ) << 7) | (((t.funct6 as u32) & 0x3F) << 10),
        RVC::Csubw(t) => 1 | (enc_creg(t.rs2) << 2) | (((t.funct2 as u32) & 3) << 5) | (enc_creg(
            t.rdrs1,
        ) << 7) | (((t.funct6 as u32) & 0x3F) << 10),
        RVC::Caddw(t) => 1 | (enc_creg(t.rs2) << 2) | (((t.funct2 as u32) & 3) << 5) | (enc_creg(
            t.rdrs1,
        ) << 7) | (((t.funct6 as u32) & 0x3F) << 10),
        RVC::Cj(t) => 1 | sc_cj(t.target.data) | enc_f3(t.funct3),
        RVC::Cbeqz(t) => 1 | (enc_creg(t.rs1) << 7) | sc_84376215(t.off.data) | enc_f3(t.funct3),
        RVC::Cbnez(t) => 1 | (enc_creg(t.rs1) << 7) | sc_84376215(t.off.data) | enc_f3(t.funct3),
        RVC::Cslli(t) => 2 | (enc_reg(t.rdrs1) << 7) | sc_540(t.imm.data) | enc_f3(t.funct3),
        RVC::Cslli64(t) => 2 | (enc_reg(t.rdrs1) << 7) | sc_540(t.imm.data) | enc_f3(t.funct3),
        RVC::Cfldsp(t) => 2 | (enc_reg(t.rdrs1) << 7) | sc_54386(t.imm.data) | enc_f3(t.funct3),
        RVC::Clqsp(t) => 2 | (enc_reg(t.rdrs1) << 7) | sc_5496(t.imm.data) | enc_f3(t.funct3),
        RVC::Clwsp(t) => 2 | (enc_reg(t.rdrs1) << 7) | sc_54276(t.imm.data) | enc_f3(t.funct3),
        RVC::Cflwsp(t) => 2 | (enc_reg(t.rdrs1) << 7) | sc_54276(t.imm.data) | enc_f3(t.funct3),
        RVC::Cldsp(t) => 2 | (enc_reg(t.rdrs1) << 7) | sc_54386(t.imm.data) | enc_f3(t.funct3),
        RVC::Cjr(t) => 2 | (enc_reg(t.rs2) << 2) | (enc_reg(t.rdrs1) << 7) | (((t.funct4 as u32)
            & 0xF) << 12),
        RVC::Cmv(t) => 2 | (enc_reg(t.rs2) << 2) | (enc_reg(t.rdrs1) << 7) | (((t.funct4 as u32)
            & 0xF) << 12),
        RVC::Cebreak(t) => 2 | (enc_reg(t.rs2) << 2) | (enc_reg(t.rdrs1) << 7) | (((t.funct4
            as u32) & 0xF) << 12),
        RVC::Cjalr(t) => 2 | (enc_reg(t.rs2) << 2) | (enc_reg(t.rdrs1) << 7) | (((t.funct4 as u32)
            & 0xF) << 12),
        RVC::Cadd(t) => 2 | (enc_reg(t.rs2) << 2) | (enc_reg(t.rdrs1) << 7) | (((t.funct4 as u32)
            & 0xF) << 12),
        RVC::Cfsdsp(t) => 2 | (enc_reg(t.rs2) << 2) | sc_5386(t.imm.data) | enc_f3(t.funct3),
        RVC::Csqsp(t) => 2 | (enc_reg(t.rs2) << 2) | sc_54_96(t.imm.data) | enc_f3(t.funct3),
        RVC::Cswsp(t) => 2 | (enc_reg(t.rs2) << 2) | sc_5276(t.imm.data) | enc_f3(t.funct3),
        RVC::Cfswsp(t) => 2 | (enc_reg(t.rs2) << 2) | sc_5276(t.imm.data) | enc_f3(t.funct3),
        RVC::Csdsp(t) => 2 | (enc_reg(t.rs2) << 2) | sc_5386(t.imm.data) | enc_f3(t.funct3),
    }) as u16
}


proof fn lemma_rt_ciw(w: u16, rd: u8, f3: u8, d: u32)
    by (bit_vector)
    requires
        w & 0b11 == 0b00,
        rd == (((w >> 2) & 0b111) + 8) as u8,
        f3 == ((w >> 13) & 0b111) as u8,
        d == ((((w >> 11) & 0b11) << 4) | (((w >> 7) & 0b1111) << 6) | (((w >> 6) & 0b1) << 2) | (((w >> 5) & 0b1) << 3)) as u32,
    ensures
        ((0u32 | (enc_creg(rd) << 2) | sc_ciw(d) | enc_f3(f3)) as u16) == w,
{
}

proof fn lemma_rt_cl_5376(w: u16, rd: u8, rs1: u8, f3: u8, d: u32)
    by (bit_vector)
    requires
        w & 0b11 == 0b00,
        rd == (((w >> 2) & 0b111) + 8) as u8,
        rs1 == (((w >> 7) & 0b111) + 8) as u8,
        f3 == ((w >> 13) & 0b111) as u8,
        d == ((((w >> 10) & 0b111) << 3) | (((w >> 5) & 0b11) << 6)) as u32,
    ensures
        ((0u32 | (enc_creg(rd) << 2) | (enc_creg(rs1) << 7) | sc_5376(d) | enc_f3(f3)) as u16) == w,
{
}

proof fn lemma_rt_cl_54876(w: u16, rd: u8, rs1: u8, f3: u8, d: u32)
    by (bit_vector)
    requires
        w & 0b11 == 0b00,
        rd == (((w >> 2) & 0b111) + 8) as u8,
        rs1 == (((w >> 7) & 0b111) + 8) as u8,
        f3 == ((w >> 13) & 0b111) as u8,
        d == ((((w >> 11) & 0b11) << 4) | (((w >> 10) & 0b1) << 8) | (((w >> 5) & 0b11) << 6)) as u32,
    ensures
        ((0u32 | (enc_creg(rd) << 2) | (enc_creg(rs1) << 7) | sc_54876(d) | enc_f3(f3)) as u16) == w,
{
}

proof fn lemma_rt_cl_5326(w: u16, rd: u8, rs1: u8, f3: u8, d: u32)
    by (bit_vector)
    requires
        w & 0b11 == 0b00,
        rd == (((w >> 2) & 0b111) + 8) as u8,
        rs1 == (((w >> 7) & 0b111) + 8) as u8,
        f3 == ((w >> 13) & 0b111) as u8,
        d == ((((w >> 10) & 0b111) << 3) | (((w >> 5) & 0b1) << 6) | (((w >> 6) & 0b1) << 2)) as u32,
    ensures
        ((0u32 | (enc_creg(rd) << 2) | (enc_creg(rs1) << 7) | sc_5326(d) | enc_f3(f3)) as u16) == w,
{
}

proof fn lemma_rt_ci540(w: u16, op: u32, r: u8, f3: u8, d: u32)
    by (bit_vector)
    requires
        op == (w & 0b11) as u32,
        r == ((w >> 7) & 0b11111) as u8,
        f3 == ((w >> 13) & 0b111) as u8,
        d == (((w >> 2) & 0b11111) | (((w >> 12) & 0b1) << 5)) as u32,
    ensures
        ((op | (enc_reg(r) << 7) | sc_540(d) | enc_f3(f3)) as u16) == w,
{
}

proof fn lemma_rt_cj(w: u16, f3: u8, d: u32)
    by (bit_vector)
    requires
        w & 0b11 == 0b01,
        f3 == ((w >> 13) & 0b111) as u8,
        d == ((((w >> 12) & 0b1) << 11) | (((w >> 11) & 0b1) << 4) | (((w >> 9) & 0b11) << 8) | (((w >> 8) & 0b1) << 10) | (((w >> 7) & 0b1) << 6) | (((w >> 6) & 0b1) << 7) | (((w >> 3) & 0b111) << 1) | (((w >> 2) & 0b1) << 5)) as u32,
    ensures
        ((1u32 | sc_cj(d) | enc_f3(f3)) as u16) == w,
{
}

proof fn lemma_rt_946875(w: u16, r: u8, f3: u8, d: u32)
    by (bit_vector)
    requires
        w & 0b11 == 0b01,
        r == ((w >> 7) & 0b11111) as u8,
        f3 == ((w >> 13) & 0b111) as u8,
        d == ((((w >> 12) & 0b1) << 9) | (((w >> 6) & 0b1) << 4) | (((w >> 5) & 0b1) << 6) | (((w >> 3) & 0b11) << 7) | (((w >> 2) & 0b1) << 5)) as u32,
    ensures
        ((1u32 | (enc_reg(r) << 7) | sc_946875(d) | enc_f3(f3)) as u16) == w,
{
}

proof fn lemma_rt_171612(w: u16, r: u8, f3: u8, d: u32)
    by (bit_vector)
    requires
        w & 0b11 == 0b01,
        r == ((w >> 7) & 0b11111) as u8,
        f3 == ((w >> 13) & 0b111) as u8,
        d == (((((w as u32) >> 12) & 0b1) << 17) | ((((w as u32) >> 2) & 0b11111) << 12)),
    ensures
        ((1u32 | (enc_reg(r) << 7) | sc_171612(d) | enc_f3(f3)) as u16) == w,
{
}

proof fn lemma_rt_creg540(w: u16, sel: u8, r: u8, f3: u8, d: u32)
    by (bit_vector)
    requires
        w & 0b11 == 0b01,
        sel == ((((w >> 10) & 0b111111) as u8) & 0b11),
        r == (((w >> 7) & 0b111) + 8) as u8,
        f3 == ((w >> 13) & 0b111) as u8,
        d == (((w >> 2) & 0b11111) | (((w >> 12) & 0b1) << 5)) as u32,
    ensures
        ((1u32 | (enc_creg(r) << 7) | sc_540(d) | ((sel as u32) << 10) | enc_f3(f3)) as u16) == w,
{
}

proof fn lemma_rt_ca(w: u16, rd: u8, rs2: u8, f2: u8, f6: u8)
    by (bit_vector)
    requires
        w & 0b11 == 0b01,
        rs2 == (((w >> 2) & 0b111) + 8) as u8,
        rd == (((w >> 7) & 0b111) + 8) as u8,
        f2 == ((w >> 5) & 0b11) as u8,
        f6 == ((w >> 10) & 0b111111) as u8,
    ensures
        ((1u32 | (enc_creg(rs2) << 2) | (((f2 as u32) & 3) << 5) | (enc_creg(rd) << 7) | (((f6 as u32) & 0x3F) << 10)) as u16) == w,
{
}

proof fn lemma_rt_cb(w: u16, r: u8, f3: u8, d: u32)
    by (bit_vector)
    requires
        w & 0b11 == 0b01,
        r == (((w >> 7) & 0b111) + 8) as u8,
        f3 == ((w >> 13) & 0b111) as u8,
        d == ((((w >> 12) & 0b1) << 8) | (((w >> 10) & 0b11) << 3) | (((w >> 5) & 0b11) << 6) | (((w >> 3) & 0b11) << 1) | (((w >> 2) & 0b1) << 5)) as u32,
    ensures
        ((1u32 | (enc_creg(r) << 7) | sc_84376215(d) | enc_f3(f3)) as u16) == w,
{
}

proof fn lemma_rt_ci_54386(w: u16, r: u8, f3: u8, d: u32)
    by (bit_vector)
    requires
        w & 0b11 == 0b10,
        r == ((w >> 7) & 0b11111) as u8,
        f3 == ((w >> 13) & 0b111) as u8,
        d == ((((w >> 12) & 0b1) << 5) | (((w >> 5) & 0b11) << 3) | (((w >> 2) & 0b111) << 6)) as u32,
    ensures
        ((2u32 | (enc_reg(r) << 7) | sc_54386(d) | enc_f3(f3)) as u16) == w,
{
}

proof fn lemma_rt_ci_5496(w: u16, r: u8, f3: u8, d: u32)
    by (bit_vector)
    requires
        w & 0b11 == 0b10,
        r == ((w >> 7) & 0b11111) as u8,
        f3 == ((w >> 13) & 0b111) as u8,
        d == ((((w >> 12) & 0b1) << 5) | (((w >> 6) & 0b1) << 4) | (((w >> 2) & 0b1111) << 6)) as u32,
    ensures
        ((2u32 | (enc_reg(r) << 7) | sc_5496(d) | enc_f3(f3)) as u16) == w,
{
}

proof fn lemma_rt_ci_54276(w: u16, r: u8, f3: u8, d: u32)
    by (bit_vector)
    requires
        w & 0b11 == 0b10,
        r == ((w >> 7) & 0b11111) as u8,
        f3 == ((w >> 13) & 0b111) as u8,
        d == ((((w >> 12) & 0b1) << 5) | (((w >> 4) & 0b111) << 2) | (((w >> 2) & 0b11) << 6)) as u32,
    ensures
        ((2u32 | (enc_reg(r) << 7) | sc_54276(d) | enc_f3(f3)) as u16) == w,
{
}

proof fn lemma_rt_cr(w: u16, rd: u8, rs2: u8, f4: u8)
    by (bit_vector)
    requires
        w & 0b11 == 0b10,
        rd == ((w >> 7) & 0b11111) as u8,
        rs2 == ((w >> 2) & 0b11111) as u8,
        f4 == ((w >> 12) & 0b1111) as u8,
    ensures
        ((2u32 | (enc_reg(rs2) << 2) | (enc_reg(rd) << 7) | (((f4 as u32) & 0xF) << 12)) as u16) == w,
{
}

proof fn lemma_rt_css_5386(w: u16, rs2: u8, f3: u8, d: u32)
    by (bit_vector)
    requires
        w & 0b11 == 0b10,
        rs2 == ((w >> 2) & 0b11111) as u8,
        f3 == ((w >> 13) & 0b111) as u8,
        d == ((((w >> 10) & 0b111) << 3) | (((w >> 7) & 0b111) << 6)) as u32,
    ensures
        ((2u32 | (enc_reg(rs2) << 2) | sc_5386(d) | enc_f3(f3)) as u16) == w,
{
}

proof fn lemma_rt_css_54_96(w: u16, rs2: u8, f3: u8, d: u32)
    by (bit_vector)
    requires
        w & 0b11 == 0b10,
        rs2 == ((w >> 2) & 0b11111) as u8,
        f3 == ((w >> 13) & 0b111) as u8,
        d == ((((w >> 11) & 0b11) << 4) | (((w >> 7) & 0b1111) << 6)) as u32,
    ensures
        ((2u32 | (enc_reg(rs2) << 2) | sc_54_96(d) | enc_f3(f3)) as u16) == w,
{
}

proof fn lemma_rt_css_5276(w: u16, rs2: u8, f3: u8, d: u32)
    by (bit_vector)
    requires
        w & 0b11 == 0b10,
        rs2 == ((w >> 2) & 0b11111) as u8,
        f3 == ((w >> 13) & 0b111) as u8,
        d == ((((w >> 9) & 0b1111) << 2) | (((w >> 7) & 0b11) << 6)) as u32,
    ensures
        ((2u32 | (enc_reg(rs2) << 2) | sc_5276(d) | enc_f3(f3)) as u16) == w,
{
}

/// Law: whatever the 16-bit decoder accepts is a compressed instruction
/// whose encoder rebuilds the word bit-for-bit.
#[verifier::rlimit(100)]
pub proof fn lemma_decode16_roundtrip(w: u16, xlen: Xlen)
    ensures
        spec_decode16(w, xlen) matches Some(i) ==> (i matches Instruction::RVC(c)
            && spec_encode16(c) == w),
{
    lemma_decode16_class(w, xlen);
    if spec_decode16(w, xlen) is Some {
        let i = spec_decode16(w, xlen)->Some_0;
        match i {
            Instruction::RVC(c) => {
                match c {
                    RVC::Caddi4spn(t) => lemma_rt_ciw(w, t.rd, t.funct3, t.imm.data),
                    RVC::Cfld(t) => lemma_rt_cl_5376(w, t.rd, t.rs1, t.funct3, t.imm.data),
                    RVC::Clq(t) => lemma_rt_cl_54876(w, t.rd, t.rs1, t.funct3, t.imm.data),
                    RVC::Clw(t) => lemma_rt_cl_5326(w, t.rd, t.rs1, t.funct3, t.imm.data),
                    RVC::Cflw(t) => lemma_rt_cl_5326(w, t.rd, t.rs1, t.funct3, t.imm.data),
                    RVC::Cld(t) => lemma_rt_cl_5376(w, t.rd, t.rs1, t.funct3, t.imm.data),
                    RVC::Cfsd(t) => lemma_rt_cl_5376(w, t.rs2, t.rs1, t.funct3, t.imm.data),
                    RVC::Csq(t) => lemma_rt_cl_54876(w, t.rs2, t.rs1, t.funct3, t.imm.data),
                    RVC::Csw(t) => lemma_rt_cl_5326(w, t.rs2, t.rs1, t.funct3, t.imm.data),
                    RVC::Cfsw(t) => lemma_rt_cl_5326(w, t.rs2, t.rs1, t.funct3, t.imm.data),
                    RVC::Csd(t) => lemma_rt_cl_5376(w, t.rs2, t.rs1, t.funct3, t.imm.data),
                    RVC::Cnop(t) => lemma_rt_ci540(w, 1, t.rdrs1, t.funct3, t.imm.data),
                    RVC::Caddi(t) => lemma_rt_ci540(w, 1, t.rdrs1, t.funct3, t.imm.data),
                    RVC::Cjal(t) => lemma_rt_cj(w, t.funct3, t.target.data),
                    RVC::Caddiw(t) => lemma_rt_ci540(w, 1, t.rdrs1, t.funct3, t.imm.data),
                    RVC::Cli(t) => lemma_rt_ci540(w, 1, t.rdrs1, t.funct3, t.imm.data),
                    RVC::Caddi16sp(t) => lemma_rt_946875(w, t.rdrs1, t.funct3, t.imm.data),
                    RVC::Clui(t) => lemma_rt_171612(w, t.rdrs1, t.funct3, t.imm.data),
                    RVC::Csrli(t) => lemma_rt_creg540(w, 0, t.rdrs1, t.funct3, t.imm.data),
                    RVC::Csrli64(t) => lemma_rt_creg540(w, 0, t.rdrs1, t.funct3, t.imm.data),
                    RVC::Csrai(t) => lemma_rt_creg540(w, 1, t.rdrs1, t.funct3, t.imm.data),
                    RVC::Csrai64(t) => lemma_rt_creg540(w, 1, t.rdrs1, t.funct3, t.imm.data),
                    RVC::Candi(t) => lemma_rt_creg540(w, 2, t.rdrs1, t.funct3, t.imm.data),
                    RVC::Csub(t) => lemma_rt_ca(w, t.rdrs1, t.rs2, t.funct2, t.funct6),
                    RVC::Cxor(t) => lemma_rt_ca(w, t.rdrs1, t.rs2, t.funct2, t.funct6),
                    RVC::Cor(t) => lemma_rt_ca(w, t.rdrs1, t.rs2, t.funct2, t.funct6),
                    RVC::Cand(t) => lemma_rt_ca(w, t.rdrs1, t.rs2, t.funct2, t.funct6),
                    RVC::Csubw(t) => lemma_rt_ca(w, t.rdrs1, t.rs2, t.funct2, t.funct6),
                    RVC::Caddw(t) => lemma_rt_ca(w, t.rdrs1, t.rs2, t.funct2, t.funct6),
                    RVC::Cj(t) => lemma_rt_cj(w, t.funct3, t.target.data),
                    RVC::Cbeqz(t) => lemma_rt_cb(w, t.rs1, t.funct3, t.off.data),
                    RVC::Cbnez(t) => lemma_rt_cb(w, t.rs1, t.funct3, t.off.data),
                    RVC::Cslli(t) => lemma_rt_ci540(w, 2, t.rdrs1, t.funct3, t.imm.data),
                    RVC::Cslli64(t) => lemma_rt_ci540(w, 2, t.rdrs1, t.funct3, t.imm.data),
                    RVC::Cfldsp(t) => lemma_rt_ci_54386(w, t.rdrs1, t.funct3, t.imm.data),
                    RVC::Clqsp(t) => lemma_rt_ci_5496(w, t.rdrs1, t.funct3, t.imm.data),
                    RVC::Clwsp(t) => lemma_rt_ci_54276(w, t.rdrs1, t.funct3, t.imm.data),
                    RVC::Cflwsp(t) => lemma_rt_ci_54276(w, t.rdrs1, t.funct3, t.imm.data),
                    RVC::Cldsp(t) => lemma_rt_ci_54386(w, t.rdrs1, t.funct3, t.imm.data),
                    RVC::Cjr(t) => lemma_rt_cr(w, t.rdrs1, t.rs2, t.funct4),
                    RVC::Cmv(t) => lemma_rt_cr(w, t.rdrs1, t.rs2, t.funct4),
                    RVC::Cebreak(t) => lemma_rt_cr(w, t.rdrs1, t.rs2, t.funct4),
                    RVC::Cjalr(t) => lemma_rt_cr(w, t.rdrs1, t.rs2, t.funct4),
                    RVC::Cadd(t) => lemma_rt_cr(w, t.rdrs1, t.rs2, t.funct4),
                    RVC::Cfsdsp(t) => lemma_rt_css_5386(w, t.rs2, t.funct3, t.imm.data),
                    RVC::Csqsp(t) => lemma_rt_css_54_96(w, t.rs2, t.funct3, t.imm.data),
                    RVC::Cswsp(t) => lemma_rt_css_5276(w, t.rs2, t.funct3, t.imm.data),
                    RVC::Cfswsp(t) => lemma_rt_css_5276(w, t.rs2, t.funct3, t.imm.data),
                    RVC::Csdsp(t) => lemma_rt_css_5386(w, t.rs2, t.funct3, t.imm.data),
                }
            },
            _ => {
            },
        }
    }
}

} // verus!
