use vstd::prelude::*;

verus! {

use crate::Xlen;
use crate::error::Error;
use crate::fetch::BType;
use crate::fetch::IType;
use crate::fetch::Instruction;
use crate::fetch::JType;
use crate::fetch::RV32I;
use crate::fetch::RV64I;
use crate::fetch::RVC;
use crate::fetch::RVZicsr;
use crate::fetch::rv32i_wf;
use crate::fetch::rv64i_wf;
use crate::fetch::rvc_wf;
use crate::fetch::rvzicsr_wf;
use crate::fetch::ins_wf;
use crate::imm::Imm;
use crate::mem64::Intent;
use crate::mem64::Physical;
use crate::mem64::SectionModel;
use crate::regfile::Csr;
use crate::regfile::csr_written;
use crate::regfile::FReg;
use crate::regfile::XReg;
use crate::regfile::xw;
use crate::size::Usize;
use crate::size::iword;
use crate::size::iword_s;
use crate::size::uword;
use vstd::wrapping::i32_specs;

/// An execute-time fault: either the instruction asks for an extension
/// or a width this machine does not have, or it is an environment call
/// or a breakpoint, surfaced to the caller as a named trap.
#[derive(Clone, Copy, PartialEq, Eq, Structural, Debug)]
pub enum ExecError {
    ExtensionNotSupported,
    EnvironmentCall,
    Breakpoint,
}

/// The state one instruction step leaves behind: its outcome, the
/// register file, the memory model, and the next program counter.
pub struct StepOut {
    pub r: Result<(), Error>,
    pub x: Seq<Usize>,
    pub mem: Seq<SectionModel>,
    pub pc_nxt: Usize,
}

/// A step that changes nothing and succeeds.
pub open spec fn step_keep(x: Seq<Usize>, mem: Physical, pcn: Usize) -> StepOut {
    StepOut { r: Ok(()), x, mem: mem.sections(), pc_nxt: pcn }
}

/// A step that writes one register.
pub open spec fn step_wr(x: Seq<Usize>, rd: u8, w: Usize, mem: Physical, pcn: Usize) -> StepOut {
    StepOut { r: Ok(()), x: xw(x, rd, w), mem: mem.sections(), pc_nxt: pcn }
}

/// A step that redirects the program counter.
pub open spec fn step_jump(x: Seq<Usize>, mem: Physical, pcn: Usize) -> StepOut {
    StepOut { r: Ok(()), x, mem: mem.sections(), pc_nxt: pcn }
}

/// A step that faults and changes nothing.
pub open spec fn step_fault(e: Error, x: Seq<Usize>, mem: Physical, pcn: Usize) -> StepOut {
    StepOut { r: Err(e), x, mem: mem.sections(), pc_nxt: pcn }
}

/// The effective address of a load or store: the base register plus the
/// sign-extended immediate, wrapping at the machine's width.
pub open spec fn spec_ea(x: Seq<Usize>, rs: u8, imm: Imm, xlen: Xlen) -> u64 {
    x[rs as int].spec_wrapping_add_signed(iword_s(xlen, imm.sext_val())).as_nat() as u64
}

/// A branch or jump target: the instruction's own address plus the
/// sign-extended immediate, wrapping at the machine's width.
pub open spec fn spec_target(pc: Usize, imm: Imm, xlen: Xlen) -> Usize {
    pc.spec_wrapping_add_signed(iword_s(xlen, imm.sext_val()))
}

/// The mathematical semantics of one base-ISA instruction, per the
/// unprivileged ISA: how it reads and writes the register file, the
/// memory and the next program counter, and when it faults.
pub open spec fn spec_rv32i_step(
    ins: RV32I,
    x: Seq<Usize>,
    mem: Physical,
    pc: Usize,
    pcn: Usize,
    xlen: Xlen,
) -> StepOut {
    match ins {
        RV32I::Lui(u) => step_wr(x, u.rd, iword(xlen, u.imm.sext_val()), mem, pcn),
        RV32I::Auipc(u) => step_wr(
            x,
            u.rd,
            pc.spec_wrapping_add_signed(iword_s(xlen, u.imm.sext_val())),
            mem,
            pcn,
        ),
        RV32I::Jal(j) => StepOut {
            r: Ok(()),
            x: xw(x, j.rd, pcn),
            mem: mem.sections(),
            pc_nxt: spec_target(pc, j.imm, xlen),
        },
        RV32I::Jalr(i) => StepOut {
            r: Ok(()),
            x: xw(x, i.rd, pcn),
            mem: mem.sections(),
            pc_nxt: x[i.rs1 as int].spec_wrapping_add_signed(
                iword_s(xlen, i.imm.sext_val()),
            ).spec_bit_and(iword(xlen, -2)),
        },
        RV32I::Beq(b) => step_jump(
            x,
            mem,
            if x[b.rs1 as int] == x[b.rs2 as int] {
                spec_target(pc, b.imm, xlen)
            } else {
                pcn
            },
        ),
        RV32I::Bne(b) => step_jump(
            x,
            mem,
            if x[b.rs1 as int] != x[b.rs2 as int] {
                spec_target(pc, b.imm, xlen)
            } else {
                pcn
            },
        ),
        RV32I::Blt(b) => step_jump(
            x,
            mem,
            if x[b.rs1 as int].as_int() < x[b.rs2 as int].as_int() {
                spec_target(pc, b.imm, xlen)
            } else {
                pcn
            },
        ),
        RV32I::Bge(b) => step_jump(
            x,
            mem,
            if x[b.rs1 as int].as_int() >= x[b.rs2 as int].as_int() {
                spec_target(pc, b.imm, xlen)
            } else {
                pcn
            },
        ),
        RV32I::Bltu(b) => step_jump(
            x,
            mem,
            if x[b.rs1 as int].as_nat() < x[b.rs2 as int].as_nat() {
                spec_target(pc, b.imm, xlen)
            } else {
                pcn
            },
        ),
        RV32I::Bgeu(b) => step_jump(
            x,
            mem,
            if x[b.rs1 as int].as_nat() >= x[b.rs2 as int].as_nat() {
                spec_target(pc, b.imm, xlen)
            } else {
                pcn
            },
        ),
        RV32I::Lb(i) => match mem.spec_read_uint(spec_ea(x, i.rs1, i.imm, xlen), 1, Intent::Read) {
            Ok(v) => step_wr(x, i.rd, iword(xlen, (v as u8 as i8) as int), mem, pcn),
            Err(e) => step_fault(Error::Mem64(e), x, mem, pcn),
        },
        RV32I::Lh(i) => match mem.spec_read_uint(spec_ea(x, i.rs1, i.imm, xlen), 2, Intent::Read) {
            Ok(v) => step_wr(x, i.rd, iword(xlen, (v as u16 as i16) as int), mem, pcn),
            Err(e) => step_fault(Error::Mem64(e), x, mem, pcn),
        },
        RV32I::Lw(i) => match mem.spec_read_uint(spec_ea(x, i.rs1, i.imm, xlen), 4, Intent::Read) {
            Ok(v) => step_wr(x, i.rd, iword(xlen, (v as u32 as i32) as int), mem, pcn),
            Err(e) => step_fault(Error::Mem64(e), x, mem, pcn),
        },
        RV32I::Lbu(i) => match mem.spec_read_uint(spec_ea(x, i.rs1, i.imm, xlen), 1, Intent::Read) {
            Ok(v) => step_wr(x, i.rd, uword(xlen, v), mem, pcn),
            Err(e) => step_fault(Error::Mem64(e), x, mem, pcn),
        },
        RV32I::Lhu(i) => match mem.spec_read_uint(spec_ea(x, i.rs1, i.imm, xlen), 2, Intent::Read) {
            Ok(v) => step_wr(x, i.rd, uword(xlen, v), mem, pcn),
            Err(e) => step_fault(Error::Mem64(e), x, mem, pcn),
        },
        RV32I::Sb(s) => match mem.spec_write_uint(
            spec_ea(x, s.rs1, s.imm, xlen),
            (x[s.rs2 as int].as_nat() % 0x100) as u64,
            1,
        ) {
            Ok(ss) => StepOut { r: Ok(()), x, mem: ss, pc_nxt: pcn },
            Err(e) => step_fault(Error::Mem64(e), x, mem, pcn),
        },
        RV32I::Sh(s) => match mem.spec_write_uint(
            spec_ea(x, s.rs1, s.imm, xlen),
            (x[s.rs2 as int].as_nat() % 0x10000) as u64,
            2,
        ) {
            Ok(ss) => StepOut { r: Ok(()), x, mem: ss, pc_nxt: pcn },
            Err(e) => step_fault(Error::Mem64(e), x, mem, pcn),
        },
        RV32I::Sw(s) => match mem.spec_write_uint(
            spec_ea(x, s.rs1, s.imm, xlen),
            (x[s.rs2 as int].as_nat() % 0x1_0000_0000) as u64,
            4,
        ) {
            Ok(ss) => StepOut { r: Ok(()), x, mem: ss, pc_nxt: pcn },
            Err(e) => step_fault(Error::Mem64(e), x, mem, pcn),
        },
        RV32I::Addi(i) => step_wr(
            x,
            i.rd,
            x[i.rs1 as int].spec_wrapping_add_signed(iword_s(xlen, i.imm.sext_val())),
            mem,
            pcn,
        ),
        RV32I::Slti(i) => step_wr(
            x,
            i.rd,
            uword(xlen, if x[i.rs1 as int].as_int() < i.imm.sext_val() { 1 } else { 0 }),
            mem,
            pcn,
        ),
        RV32I::Sltiu(i) => step_wr(
            x,
            i.rd,
            uword(
                xlen,
                if x[i.rs1 as int].as_nat() < iword(xlen, i.imm.sext_val()).as_nat() {
                    1
                } else {
                    0
                },
            ),
            mem,
            pcn,
        ),
        RV32I::Xori(i) => step_wr(
            x,
            i.rd,
            x[i.rs1 as int].spec_bit_xor(iword(xlen, i.imm.sext_val())),
            mem,
            pcn,
        ),
        RV32I::Ori(i) => step_wr(
            x,
            i.rd,
            x[i.rs1 as int].spec_bit_or(iword(xlen, i.imm.sext_val())),
            mem,
            pcn,
        ),
        RV32I::Andi(i) => step_wr(
            x,
            i.rd,
            x[i.rs1 as int].spec_bit_and(iword(xlen, i.imm.sext_val())),
            mem,
            pcn,
        ),
        RV32I::Slli(i) => step_wr(
            x,
            i.rd,
            x[i.rs1 as int].spec_shl((i.imm.masked() % 32) as u32),
            mem,
            pcn,
        ),
        RV32I::Srli(i) => step_wr(
            x,
            i.rd,
            x[i.rs1 as int].spec_shr((i.imm.masked() % 32) as u32),
            mem,
            pcn,
        ),
        RV32I::Srai(i) => step_wr(
            x,
            i.rd,
            x[i.rs1 as int].spec_as_signed().spec_shr_arith(
                (i.imm.masked() % 32) as u32,
            ).spec_cast_to_usize(),
            mem,
            pcn,
        ),
        RV32I::Add(t) => step_wr(
            x,
            t.rd,
            x[t.rs1 as int].spec_wrapping_add(x[t.rs2 as int]),
            mem,
            pcn,
        ),
        RV32I::Sub(t) => step_wr(
            x,
            t.rd,
            x[t.rs1 as int].spec_wrapping_sub(x[t.rs2 as int]),
            mem,
            pcn,
        ),
        RV32I::Sll(t) => step_wr(
            x,
            t.rd,
            x[t.rs1 as int].spec_shl((x[t.rs2 as int].spec_low_u32() % 32) as u32),
            mem,
            pcn,
        ),
        RV32I::Slt(t) => step_wr(
            x,
            t.rd,
            uword(xlen, if x[t.rs1 as int].as_int() < x[t.rs2 as int].as_int() { 1 } else { 0 }),
            mem,
            pcn,
        ),
        RV32I::Sltu(t) => step_wr(
            x,
            t.rd,
            uword(xlen, if x[t.rs1 as int].as_nat() < x[t.rs2 as int].as_nat() { 1 } else { 0 }),
            mem,
            pcn,
        ),
        RV32I::Xor(t) => step_wr(x, t.rd, x[t.rs1 as int].spec_bit_xor(x[t.rs2 as int]), mem, pcn),
        RV32I::Srl(t) => step_wr(
            x,
            t.rd,
            x[t.rs1 as int].spec_shr((x[t.rs2 as int].spec_low_u32() % 32) as u32),
            mem,
            pcn,
        ),
        RV32I::Sra(t) => step_wr(
            x,
            t.rd,
            x[t.rs1 as int].spec_as_signed().spec_shr_arith(
                (x[t.rs2 as int].spec_low_u32() % 32) as u32,
            ).spec_cast_to_usize(),
            mem,
            pcn,
        ),
        RV32I::Or(t) => step_wr(x, t.rd, x[t.rs1 as int].spec_bit_or(x[t.rs2 as int]), mem, pcn),
        RV32I::And(t) => step_wr(x, t.rd, x[t.rs1 as int].spec_bit_and(x[t.rs2 as int]), mem, pcn),
        RV32I::Fence(_) => step_keep(x, mem, pcn),
        RV32I::Ecall(_) => step_fault(Error::Exec(ExecError::EnvironmentCall), x, mem, pcn),
        RV32I::Ebreak(_) => step_fault(Error::Exec(ExecError::Breakpoint), x, mem, pcn),
    }
}


/// The word that clears an address's low bit: all ones but the last.
fn low_bit_mask(xlen: Xlen) -> (r: Usize)
    requires
        xlen != Xlen::X128,
    ensures
        r == iword(xlen, -2),
        r.matches_xlen(xlen),
{
    proof {
        assert((-2int) as i32 == -2i32);
        assert((-2int) as i64 == -2i64);
        assert((-2i32) as u32 == 0xFFFF_FFFEu32) by (bit_vector);
        assert((-2i64) as u64 == 0xFFFF_FFFF_FFFF_FFFEu64) by (bit_vector);
    }
    match xlen {
        Xlen::X32 => Usize::U32(0xFFFF_FFFE),
        Xlen::X64 => Usize::U64(0xFFFF_FFFF_FFFF_FFFE),
        Xlen::X128 => Usize::U64(0xFFFF_FFFF_FFFF_FFFE),
    }
}

/// Execute one base-ISA instruction against the register file, the
/// memory and the next-program-counter slot.
#[verifier::rlimit(80)]
fn exec_rv32i(
    ins: RV32I,
    x: &mut XReg,
    mem: &mut Physical,
    pc: Usize,
    pc_nxt: &mut Usize,
    xlen: Xlen,
) -> (r: Result<(), Error>)
    requires
        rv32i_wf(ins),
        xlen != Xlen::X128,
        old(x).wf(),
        old(x).spec_xlen() == xlen,
        old(mem).wf(),
        pc.matches_xlen(xlen),
        old(pc_nxt).matches_xlen(xlen),
    ensures
        final(x).wf(),
        final(x).spec_xlen() == xlen,
        final(mem).wf(),
        final(pc_nxt).matches_xlen(xlen),
        ({
            let so = spec_rv32i_step(ins, old(x)@, *old(mem), pc, *old(pc_nxt), xlen);
            r == so.r && final(x)@ == so.x && final(mem).sections() == so.mem && *final(pc_nxt)
                == so.pc_nxt
        }),
{
    match ins {
        RV32I::Lui(u) => {
            x.w_isize(u.rd, u.imm.sext(xlen));
            Ok(())
        },
        RV32I::Auipc(u) => {
            x.w_usize(u.rd, pc.wrapping_add_signed(u.imm.sext(xlen)));
            Ok(())
        },
        RV32I::Jal(j) => {
            let pc_link = *pc_nxt;
            *pc_nxt = pc.wrapping_add_signed(j.imm.sext(xlen));
            x.w_usize(j.rd, pc_link);
            Ok(())
        },
        RV32I::Jalr(i) => {
            let pc_link = *pc_nxt;
            let target = x.r_usize(i.rs1).wrapping_add_signed(i.imm.sext(xlen));
            *pc_nxt = target.bit_and(low_bit_mask(xlen));
            x.w_usize(i.rd, pc_link);
            Ok(())
        },
        RV32I::Beq(b) => {
            if x.r_usize(b.rs1) == x.r_usize(b.rs2) {
                *pc_nxt = pc.wrapping_add_signed(b.imm.sext(xlen));
            }
            Ok(())
        },
        RV32I::Bne(b) => {
            if x.r_usize(b.rs1) != x.r_usize(b.rs2) {
                *pc_nxt = pc.wrapping_add_signed(b.imm.sext(xlen));
            }
            Ok(())
        },
        RV32I::Blt(b) => {
            if x.r_isize(b.rs1).lt(x.r_isize(b.rs2)) {
                *pc_nxt = pc.wrapping_add_signed(b.imm.sext(xlen));
            }
            Ok(())
        },
        RV32I::Bge(b) => {
            if x.r_isize(b.rs1).ge(x.r_isize(b.rs2)) {
                *pc_nxt = pc.wrapping_add_signed(b.imm.sext(xlen));
            }
            Ok(())
        },
        RV32I::Bltu(b) => {
            if x.r_usize(b.rs1).lt(x.r_usize(b.rs2)) {
                *pc_nxt = pc.wrapping_add_signed(b.imm.sext(xlen));
            }
            Ok(())
        },
        RV32I::Bgeu(b) => {
            if x.r_usize(b.rs1).ge(x.r_usize(b.rs2)) {
                *pc_nxt = pc.wrapping_add_signed(b.imm.sext(xlen));
            }
            Ok(())
        },
        RV32I::Lb(i) => {
            let addr = x.r_usize(i.rs1).wrapping_add_signed(i.imm.sext(xlen)).to_mem_addr();
            match mem.read_i8(addr) {
                Ok(d) => {
                    x.w_sext8(i.rd, d);
                    Ok(())
                },
                Err(e) => Err(Error::Mem64(e)),
            }
        },
        RV32I::Lh(i) => {
            let addr = x.r_usize(i.rs1).wrapping_add_signed(i.imm.sext(xlen)).to_mem_addr();
            match mem.read_i16(addr) {
                Ok(d) => {
                    x.w_sext16(i.rd, d);
                    Ok(())
                },
                Err(e) => Err(Error::Mem64(e)),
            }
        },
        RV32I::Lw(i) => {
            let addr = x.r_usize(i.rs1).wrapping_add_signed(i.imm.sext(xlen)).to_mem_addr();
            match mem.read_i32(addr) {
                Ok(d) => {
                    x.w_sext32(i.rd, d);
                    Ok(())
                },
                Err(e) => Err(Error::Mem64(e)),
            }
        },
        RV32I::Lbu(i) => {
            let addr = x.r_usize(i.rs1).wrapping_add_signed(i.imm.sext(xlen)).to_mem_addr();
            match mem.read_u8(addr) {
                Ok(d) => {
                    x.w_zext8(i.rd, d);
                    Ok(())
                },
                Err(e) => Err(Error::Mem64(e)),
            }
        },
        RV32I::Lhu(i) => {
            let addr = x.r_usize(i.rs1).wrapping_add_signed(i.imm.sext(xlen)).to_mem_addr();
            match mem.read_u16(addr) {
                Ok(d) => {
                    x.w_zext16(i.rd, d);
                    Ok(())
                },
                Err(e) => Err(Error::Mem64(e)),
            }
        },
        RV32I::Sb(s) => {
            let addr = x.r_usize(s.rs1).wrapping_add_signed(s.imm.sext(xlen)).to_mem_addr();
            match mem.write_u8(addr, x.r_u8(s.rs2)) {
                Ok(()) => Ok(()),
                Err(e) => Err(Error::Mem64(e)),
            }
        },
        RV32I::Sh(s) => {
            let addr = x.r_usize(s.rs1).wrapping_add_signed(s.imm.sext(xlen)).to_mem_addr();
            match mem.write_u16(addr, x.r_u16(s.rs2)) {
                Ok(()) => Ok(()),
                Err(e) => Err(Error::Mem64(e)),
            }
        },
        RV32I::Sw(s) => {
            let addr = x.r_usize(s.rs1).wrapping_add_signed(s.imm.sext(xlen)).to_mem_addr();
            match mem.write_u32(addr, x.r_u32(s.rs2)) {
                Ok(()) => Ok(()),
                Err(e) => Err(Error::Mem64(e)),
            }
        },
        RV32I::Addi(i) => {
            x.w_usize(i.rd, x.r_usize(i.rs1).wrapping_add_signed(i.imm.sext(xlen)));
            Ok(())
        },
        RV32I::Slti(i) => {
            let value: u8 = if x.r_isize(i.rs1).lt(i.imm.sext(xlen)) {
                1
            } else {
                0
            };
            x.w_zext8(i.rd, value);
            Ok(())
        },
        RV32I::Sltiu(i) => {
            let value: u8 = if x.r_usize(i.rs1).lt(i.imm.sext(xlen).cast_to_usize()) {
                1
            } else {
                0
            };
            x.w_zext8(i.rd, value);
            Ok(())
        },
        RV32I::Xori(i) => {
            x.w_usize(i.rd, x.r_usize(i.rs1).bit_xor(i.imm.sext(xlen).cast_to_usize()));
            Ok(())
        },
        RV32I::Ori(i) => {
            x.w_usize(i.rd, x.r_usize(i.rs1).bit_or(i.imm.sext(xlen).cast_to_usize()));
            Ok(())
        },
        RV32I::Andi(i) => {
            x.w_usize(i.rd, x.r_usize(i.rs1).bit_and(i.imm.sext(xlen).cast_to_usize()));
            Ok(())
        },
        RV32I::Slli(i) => {
            x.w_usize(i.rd, x.r_usize(i.rs1).shl(i.imm.low32() % 32));
            Ok(())
        },
        RV32I::Srli(i) => {
            x.w_usize(i.rd, x.r_usize(i.rs1).shr(i.imm.low32() % 32));
            Ok(())
        },
        RV32I::Srai(i) => {
            x.w_isize(i.rd, x.r_isize(i.rs1).shr_arith(i.imm.low32() % 32));
            Ok(())
        },
        RV32I::Add(t) => {
            x.w_usize(t.rd, x.r_usize(t.rs1).wrapping_add(x.r_usize(t.rs2)));
            Ok(())
        },
        RV32I::Sub(t) => {
            x.w_usize(t.rd, x.r_usize(t.rs1).wrapping_sub(x.r_usize(t.rs2)));
            Ok(())
        },
        RV32I::Sll(t) => {
            x.w_usize(t.rd, x.r_usize(t.rs1).shl(x.r_usize(t.rs2).low_u32() % 32));
            Ok(())
        },
        RV32I::Slt(t) => {
            let value: u8 = if x.r_isize(t.rs1).lt(x.r_isize(t.rs2)) {
                1
            } else {
                0
            };
            x.w_zext8(t.rd, value);
            Ok(())
        },
        RV32I::Sltu(t) => {
            let value: u8 = if x.r_usize(t.rs1).lt(x.r_usize(t.rs2)) {
                1
            } else {
                0
            };
            x.w_zext8(t.rd, value);
            Ok(())
        },
        RV32I::Xor(t) => {
            x.w_usize(t.rd, x.r_usize(t.rs1).bit_xor(x.r_usize(t.rs2)));
            Ok(())
        },
        RV32I::Srl(t) => {
            x.w_usize(t.rd, x.r_usize(t.rs1).shr(x.r_usize(t.rs2).low_u32() % 32));
            Ok(())
        },
        RV32I::Sra(t) => {
            x.w_isize(t.rd, x.r_isize(t.rs1).shr_arith(x.r_usize(t.rs2).low_u32() % 32));
            Ok(())
        },
        RV32I::Or(t) => {
            x.w_usize(t.rd, x.r_usize(t.rs1).bit_or(x.r_usize(t.rs2)));
            Ok(())
        },
        RV32I::And(t) => {
            x.w_usize(t.rd, x.r_usize(t.rs1).bit_and(x.r_usize(t.rs2)));
            Ok(())
        },
        RV32I::Fence(_) => Ok(()),
        RV32I::Ecall(_) => Err(Error::Exec(ExecError::EnvironmentCall)),
        RV32I::Ebreak(_) => Err(Error::Exec(ExecError::Breakpoint)),
    }
}


/// The mathematical semantics of one RV64I instruction: only a 64-bit
/// machine has them; the W-suffix forms operate on the low 32 bits and
/// write the 32-bit result sign-extended to the full width.
pub open spec fn spec_rv64i_step(
    ins: RV64I,
    x: Seq<Usize>,
    mem: Physical,
    pcn: Usize,
    xlen: Xlen,
) -> StepOut {
    if xlen != Xlen::X64 {
        step_fault(Error::Exec(ExecError::ExtensionNotSupported), x, mem, pcn)
    } else {
        match ins {
            RV64I::Lwu(i) => match mem.spec_read_uint(
                spec_ea(x, i.rs1, i.imm, xlen),
                4,
                Intent::Read,
            ) {
                Ok(v) => step_wr(x, i.rd, uword(xlen, v), mem, pcn),
                Err(e) => step_fault(Error::Mem64(e), x, mem, pcn),
            },
            RV64I::Ld(i) => match mem.spec_read_uint(
                spec_ea(x, i.rs1, i.imm, xlen),
                8,
                Intent::Read,
            ) {
                Ok(v) => step_wr(x, i.rd, iword(xlen, (v as u64 as i64) as int), mem, pcn),
                Err(e) => step_fault(Error::Mem64(e), x, mem, pcn),
            },
            RV64I::Sd(s) => match mem.spec_write_uint(
                spec_ea(x, s.rs1, s.imm, xlen),
                x[s.rs2 as int].as_nat() as u64,
                8,
            ) {
                Ok(ss) => StepOut { r: Ok(()), x, mem: ss, pc_nxt: pcn },
                Err(e) => step_fault(Error::Mem64(e), x, mem, pcn),
            },
            RV64I::Slli(i) => step_wr(
                x,
                i.rd,
                x[i.rs1 as int].spec_shl((i.imm.masked() % 64) as u32),
                mem,
                pcn,
            ),
            RV64I::Srli(i) => step_wr(
                x,
                i.rd,
                x[i.rs1 as int].spec_shr((i.imm.masked() % 64) as u32),
                mem,
                pcn,
            ),
            RV64I::Srai(i) => step_wr(
                x,
                i.rd,
                x[i.rs1 as int].spec_as_signed().spec_shr_arith(
                    (i.imm.masked() % 64) as u32,
                ).spec_cast_to_usize(),
                mem,
                pcn,
            ),
            RV64I::Sll(t) => step_wr(
                x,
                t.rd,
                x[t.rs1 as int].spec_shl((x[t.rs2 as int].spec_low_u32() % 64) as u32),
                mem,
                pcn,
            ),
            RV64I::Srl(t) => step_wr(
                x,
                t.rd,
                x[t.rs1 as int].spec_shr((x[t.rs2 as int].spec_low_u32() % 64) as u32),
                mem,
                pcn,
            ),
            RV64I::Sra(t) => step_wr(
                x,
                t.rd,
                x[t.rs1 as int].spec_as_signed().spec_shr_arith(
                    (x[t.rs2 as int].spec_low_u32() % 64) as u32,
                ).spec_cast_to_usize(),
                mem,
                pcn,
            ),
            RV64I::Addiw(i) => step_wr(
                x,
                i.rd,
                iword(
                    xlen,
                    i32_specs::wrapping_add(
                        x[i.rs1 as int].spec_low_u32() as i32,
                        i.imm.sext_val() as i32,
                    ) as int,
                ),
                mem,
                pcn,
            ),
            RV64I::Slliw(i) => step_wr(
                x,
                i.rd,
                iword(
                    xlen,
                    ((x[i.rs1 as int].spec_low_u32() << ((i.imm.masked() % 32) as u32)) as i32)
                        as int,
                ),
                mem,
                pcn,
            ),
            RV64I::Srliw(i) => step_wr(
                x,
                i.rd,
                iword(
                    xlen,
                    ((x[i.rs1 as int].spec_low_u32() >> ((i.imm.masked() % 32) as u32)) as i32)
                        as int,
                ),
                mem,
                pcn,
            ),
            RV64I::Sraiw(i) => step_wr(
                x,
                i.rd,
                iword(
                    xlen,
                    ((x[i.rs1 as int].spec_low_u32() as i32) >> ((i.imm.masked() % 32) as u32))
                        as int,
                ),
                mem,
                pcn,
            ),
            RV64I::Addw(t) => step_wr(
                x,
                t.rd,
                iword(
                    xlen,
                    i32_specs::wrapping_add(
                        x[t.rs1 as int].spec_low_u32() as i32,
                        x[t.rs2 as int].spec_low_u32() as i32,
                    ) as int,
                ),
                mem,
                pcn,
            ),
            RV64I::Subw(t) => step_wr(
                x,
                t.rd,
                iword(
                    xlen,
                    i32_specs::wrapping_sub(
                        x[t.rs1 as int].spec_low_u32() as i32,
                        x[t.rs2 as int].spec_low_u32() as i32,
                    ) as int,
                ),
                mem,
                pcn,
            ),
            RV64I::Sllw(t) => step_wr(
                x,
                t.rd,
                iword(
                    xlen,
                    ((x[t.rs1 as int].spec_low_u32() << ((x[t.rs2 as int].spec_low_u32()
                        % 32) as u32)) as i32) as int,
                ),
                mem,
                pcn,
            ),
            RV64I::Srlw(t) => step_wr(
                x,
                t.rd,
                iword(
                    xlen,
                    ((x[t.rs1 as int].spec_low_u32() >> ((x[t.rs2 as int].spec_low_u32()
                        % 32) as u32)) as i32) as int,
                ),
                mem,
                pcn,
            ),
            RV64I::Sraw(t) => step_wr(
                x,
                t.rd,
                iword(
                    xlen,
                    ((x[t.rs1 as int].spec_low_u32() as i32) >> ((x[t.rs2 as int].spec_low_u32()
                        % 32) as u32)) as int,
                ),
                mem,
                pcn,
            ),
        }
    }
}

/// Execute one RV64I instruction.
#[verifier::rlimit(80)]
fn exec_rv64i(
    ins: RV64I,
    x: &mut XReg,
    mem: &mut Physical,
    pc_nxt: &mut Usize,
    xlen: Xlen,
) -> (r: Result<(), Error>)
    requires
        rv64i_wf(ins),
        xlen != Xlen::X128,
        old(x).wf(),
        old(x).spec_xlen() == xlen,
        old(mem).wf(),
        old(pc_nxt).matches_xlen(xlen),
    ensures
        final(x).wf(),
        final(x).spec_xlen() == xlen,
        final(mem).wf(),
        final(pc_nxt).matches_xlen(xlen),
        ({
            let so = spec_rv64i_step(ins, old(x)@, *old(mem), *old(pc_nxt), xlen);
            r == so.r && final(x)@ == so.x && final(mem).sections() == so.mem && *final(pc_nxt)
                == so.pc_nxt
        }),
{
    if !matches!(xlen, Xlen::X64) {
        return Err(Error::Exec(ExecError::ExtensionNotSupported));
    }
    match ins {
        RV64I::Lwu(i) => {
            let addr = x.r_usize(i.rs1).wrapping_add_signed(i.imm.sext(xlen)).to_mem_addr();
            match mem.read_u32(addr) {
                Ok(d) => {
                    x.w_zext32(i.rd, d);
                    Ok(())
                },
                Err(e) => Err(Error::Mem64(e)),
            }
        },
        RV64I::Ld(i) => {
            let addr = x.r_usize(i.rs1).wrapping_add_signed(i.imm.sext(xlen)).to_mem_addr();
            match mem.read_i64(addr) {
                Ok(d) => {
                    x.w_sext64(i.rd, d);
                    Ok(())
                },
                Err(e) => Err(Error::Mem64(e)),
            }
        },
        RV64I::Sd(s) => {
            let addr = x.r_usize(s.rs1).wrapping_add_signed(s.imm.sext(xlen)).to_mem_addr();
            match mem.write_u64(addr, x.r_u64(s.rs2)) {
                Ok(()) => Ok(()),
                Err(e) => Err(Error::Mem64(e)),
            }
        },
        RV64I::Slli(i) => {
            x.w_usize(i.rd, x.r_usize(i.rs1).shl(i.imm.low32() % 64));
            Ok(())
        },
        RV64I::Srli(i) => {
            x.w_usize(i.rd, x.r_usize(i.rs1).shr(i.imm.low32() % 64));
            Ok(())
        },
        RV64I::Srai(i) => {
            x.w_isize(i.rd, x.r_isize(i.rs1).shr_arith(i.imm.low32() % 64));
            Ok(())
        },
        RV64I::Sll(t) => {
            x.w_usize(t.rd, x.r_usize(t.rs1).shl(x.r_usize(t.rs2).low_u32() % 64));
            Ok(())
        },
        RV64I::Srl(t) => {
            x.w_usize(t.rd, x.r_usize(t.rs1).shr(x.r_usize(t.rs2).low_u32() % 64));
            Ok(())
        },
        RV64I::Sra(t) => {
            x.w_isize(t.rd, x.r_isize(t.rs1).shr_arith(x.r_usize(t.rs2).low_u32() % 64));
            Ok(())
        },
        RV64I::Addiw(i) => {
            x.w_sext32(i.rd, x.r_i32(i.rs1).wrapping_add(i.imm.sext32()));
            Ok(())
        },
        RV64I::Slliw(i) => {
            let v = x.r_u32(i.rs1) << (i.imm.low32() % 32);
            x.w_sext32(i.rd, v as i32);
            Ok(())
        },
        RV64I::Srliw(i) => {
            let v = x.r_u32(i.rs1) >> (i.imm.low32() % 32);
            x.w_sext32(i.rd, v as i32);
            Ok(())
        },
        RV64I::Sraiw(i) => {
            let v = x.r_i32(i.rs1) >> (i.imm.low32() % 32);
            x.w_sext32(i.rd, v);
            Ok(())
        },
        RV64I::Addw(t) => {
            x.w_sext32(t.rd, x.r_i32(t.rs1).wrapping_add(x.r_i32(t.rs2)));
            Ok(())
        },
        RV64I::Subw(t) => {
            x.w_sext32(t.rd, x.r_i32(t.rs1).wrapping_sub(x.r_i32(t.rs2)));
            Ok(())
        },
        RV64I::Sllw(t) => {
            let v = x.r_u32(t.rs1) << (x.r_usize(t.rs2).low_u32() % 32);
            x.w_sext32(t.rd, v as i32);
            Ok(())
        },
        RV64I::Srlw(t) => {
            let v = x.r_u32(t.rs1) >> (x.r_usize(t.rs2).low_u32() % 32);
            x.w_sext32(t.rd, v as i32);
            Ok(())
        },
        RV64I::Sraw(t) => {
            let v = x.r_i32(t.rs1) >> (x.r_usize(t.rs2).low_u32() % 32);
            x.w_sext32(t.rd, v);
            Ok(())
        },
    }
}


/// The word holding a control-register instruction's five-bit immediate
/// zero-extended to the machine's width.
fn uimm_word(xlen: Xlen, v: u8) -> (r: Usize)
    requires
        xlen != Xlen::X128,
    ensures
        r == uword(xlen, v as nat),
        r.matches_xlen(xlen),
{
    match xlen {
        Xlen::X32 => Usize::U32(v as u32),
        Xlen::X64 => Usize::U64(v as u64),
        Xlen::X128 => Usize::U64(v as u64),
    }
}


/// How one control-register instruction relates the register file and
/// the CSR file before and after: the old CSR value lands in `rd`, and
/// the CSR is rewritten, set, cleared or left alone as the form and its
/// suppression rules say.
pub open spec fn spec_rvzicsr_rel(
    ins: RVZicsr,
    x0: Seq<Usize>,
    c0: Csr,
    x1: Seq<Usize>,
    c1: Csr,
    xlen: Xlen,
) -> bool {
    match ins {
        RVZicsr::Csrrw(t) => x1 == xw(
            x0,
            t.rd,
            uword(xlen, c0.spec_read(t.csr)),
        ) && csr_written(c0, t.csr, x1[t.rs1uimm as int], c1),
        RVZicsr::Csrrs(t) => x1 == xw(
            x0,
            t.rd,
            uword(xlen, c0.spec_read(t.csr)),
        ) && (if t.rs1uimm != 0 {
            csr_written(
                c0,
                t.csr,
                uword(xlen, c0.spec_read(t.csr)).spec_bit_or(x1[t.rs1uimm as int]),
                c1,
            )
        } else {
            c1 == c0
        }),
        RVZicsr::Csrrc(t) => x1 == xw(
            x0,
            t.rd,
            uword(xlen, c0.spec_read(t.csr)),
        ) && (if t.rs1uimm != 0 {
            csr_written(
                c0,
                t.csr,
                uword(xlen, c0.spec_read(t.csr)).spec_bit_and(
                    x1[t.rs1uimm as int].spec_bit_not(),
                ),
                c1,
            )
        } else {
            c1 == c0
        }),
        RVZicsr::Csrrwi(t) => x1 == xw(
            x0,
            t.rd,
            uword(xlen, c0.spec_read(t.csr)),
        ) && csr_written(c0, t.csr, uword(xlen, t.rs1uimm as nat), c1),
        RVZicsr::Csrrsi(t) => x1 == xw(
            x0,
            t.rd,
            uword(xlen, c0.spec_read(t.csr)),
        ) && (if t.rs1uimm != 0 {
            csr_written(
                c0,
                t.csr,
                uword(xlen, c0.spec_read(t.csr)).spec_bit_or(
                    uword(xlen, t.rs1uimm as nat),
                ),
                c1,
            )
        } else {
            c1 == c0
        }),
        RVZicsr::Csrrci(t) => x1 == xw(
            x0,
            t.rd,
            uword(xlen, c0.spec_read(t.csr)),
        ) && (if t.rs1uimm != 0 {
            csr_written(
                c0,
                t.csr,
                uword(xlen, c0.spec_read(t.csr)).spec_bit_and(
                    uword(xlen, t.rs1uimm as nat).spec_bit_not(),
                ),
                c1,
            )
        } else {
            c1 == c0
        }),
        }
}

/// Execute one control-and-status-register instruction.
///
/// Reads and writes follow the suppression rules: `CSRRW` with `rd = x0`
/// suppresses the CSR read, and the set/clear forms with `rs1 = x0` (or
/// a zero immediate) suppress the CSR write.
#[verifier::rlimit(80)]
fn exec_rvzicsr(ins: RVZicsr, x: &mut XReg, csr: &mut Csr, xlen: Xlen) -> (r: Result<(), Error>)
    requires
        rvzicsr_wf(ins),
        xlen != Xlen::X128,
        old(x).wf(),
        old(x).spec_xlen() == xlen,
        old(csr).wf(),
        old(csr).spec_xlen() == xlen,
    ensures
        final(x).wf(),
        final(x).spec_xlen() == xlen,
        final(csr).wf(),
        r == Ok::<(), Error>(()),
        spec_rvzicsr_rel(ins, old(x)@, *old(csr), final(x)@, *final(csr), xlen),
    {
    match ins {
        RVZicsr::Csrrw(t) => {
            if t.rd != 0 {
                let w = csr.r_usize(t.csr);
                proof {
                    assert(w == uword(xlen, old(csr).spec_read(t.csr)));
                }
                x.w_usize(t.rd, w);
            }
            csr.w_usize(t.csr, x.r_usize(t.rs1uimm));
            Ok(())
        },
        RVZicsr::Csrrs(t) => {
            let w = csr.r_usize(t.csr);
            proof {
                assert(w == uword(xlen, old(csr).spec_read(t.csr)));
            }
            x.w_usize(t.rd, w);
            if t.rs1uimm != 0 {
                csr.w_usize(t.csr, w.bit_or(x.r_usize(t.rs1uimm)));
            }
            Ok(())
        },
        RVZicsr::Csrrc(t) => {
            let w = csr.r_usize(t.csr);
            proof {
                assert(w == uword(xlen, old(csr).spec_read(t.csr)));
            }
            x.w_usize(t.rd, w);
            if t.rs1uimm != 0 {
                csr.w_usize(t.csr, w.bit_and(x.r_usize(t.rs1uimm).bit_not()));
            }
            Ok(())
        },
        RVZicsr::Csrrwi(t) => {
            if t.rd != 0 {
                let w = csr.r_usize(t.csr);
                proof {
                    assert(w == uword(xlen, old(csr).spec_read(t.csr)));
                }
                x.w_usize(t.rd, w);
            }
            csr.w_usize(t.csr, uimm_word(xlen, t.rs1uimm));
            Ok(())
        },
        RVZicsr::Csrrsi(t) => {
            let w = csr.r_usize(t.csr);
            proof {
                assert(w == uword(xlen, old(csr).spec_read(t.csr)));
            }
            x.w_usize(t.rd, w);
            if t.rs1uimm != 0 {
                csr.w_usize(t.csr, w.bit_or(uimm_word(xlen, t.rs1uimm)));
            }
            Ok(())
        },
        RVZicsr::Csrrci(t) => {
            let w = csr.r_usize(t.csr);
            proof {
                assert(w == uword(xlen, old(csr).spec_read(t.csr)));
            }
            x.w_usize(t.rd, w);
            if t.rs1uimm != 0 {
                csr.w_usize(t.csr, w.bit_and(uimm_word(xlen, t.rs1uimm).bit_not()));
            }
            Ok(())
        },
    }
}


/// The stack-pointer-relative address of a compressed load or store:
/// the base register plus the zero-extended immediate.
pub open spec fn spec_ea_u(x: Seq<Usize>, rs: u8, imm: Imm, xlen: Xlen) -> u64 {
    x[rs as int].spec_wrapping_add(uword(xlen, imm.masked())).as_nat() as u64
}

/// The mathematical semantics of one compressed instruction.  Each form
/// maps to its base-ISA operation with the compressed register and
/// immediate decoding; floating-point and 128-bit forms fault with
/// `ExtensionNotSupported`, this core's F and D capabilities being
/// hard-wired off; the 64-bit-only forms fault on a 32-bit machine and
/// the 32-bit-only jump faults on a 64-bit one.
pub open spec fn spec_rvc_step(
    ins: RVC,
    x: Seq<Usize>,
    mem: Physical,
    pc: Usize,
    pcn: Usize,
    xlen: Xlen,
) -> StepOut {
    let unsupported = step_fault(Error::Exec(ExecError::ExtensionNotSupported), x, mem, pcn);
    match ins {
        RVC::Caddi4spn(t) => step_wr(
            x,
            t.rd,
            x[2].spec_wrapping_add(uword(xlen, t.imm.masked())),
            mem,
            pcn,
        ),
        RVC::Cfld(_) => unsupported,
        RVC::Clq(_) => unsupported,
        RVC::Clw(t) => match mem.spec_read_uint(spec_ea_u(x, t.rs1, t.imm, xlen), 4, Intent::Read) {
            Ok(v) => step_wr(x, t.rd, iword(xlen, (v as u32 as i32) as int), mem, pcn),
            Err(e) => step_fault(Error::Mem64(e), x, mem, pcn),
        },
        RVC::Cflw(_) => unsupported,
        RVC::Cld(t) => if xlen != Xlen::X64 {
            unsupported
        } else {
            match mem.spec_read_uint(spec_ea_u(x, t.rs1, t.imm, xlen), 8, Intent::Read) {
                Ok(v) => step_wr(x, t.rd, iword(xlen, (v as u64 as i64) as int), mem, pcn),
                Err(e) => step_fault(Error::Mem64(e), x, mem, pcn),
            }
        },
        RVC::Cfsd(_) => unsupported,
        RVC::Csq(_) => unsupported,
        RVC::Csw(t) => match mem.spec_write_uint(
            spec_ea_u(x, t.rs1, t.imm, xlen),
            (x[t.rs2 as int].as_nat() % 0x1_0000_0000) as u64,
            4,
        ) {
            Ok(ss) => StepOut { r: Ok(()), x, mem: ss, pc_nxt: pcn },
            Err(e) => step_fault(Error::Mem64(e), x, mem, pcn),
        },
        RVC::Cfsw(_) => unsupported,
        RVC::Csd(t) => if xlen != Xlen::X64 {
            unsupported
        } else {
            match mem.spec_write_uint(
                spec_ea_u(x, t.rs1, t.imm, xlen),
                x[t.rs2 as int].as_nat() as u64,
                8,
            ) {
                Ok(ss) => StepOut { r: Ok(()), x, mem: ss, pc_nxt: pcn },
                Err(e) => step_fault(Error::Mem64(e), x, mem, pcn),
            }
        },
        RVC::Cnop(_) => step_keep(x, mem, pcn),
        RVC::Caddi(t) => step_wr(
            x,
            t.rdrs1,
            x[t.rdrs1 as int].spec_wrapping_add_signed(iword_s(xlen, t.imm.sext_val())),
            mem,
            pcn,
        ),
        RVC::Cjal(t) => if xlen == Xlen::X64 {
            unsupported
        } else {
            StepOut {
                r: Ok(()),
                x: xw(x, 1, pcn),
                mem: mem.sections(),
                pc_nxt: spec_target(pc, t.target, xlen),
            }
        },
        RVC::Caddiw(t) => if xlen != Xlen::X64 {
            unsupported
        } else {
            step_wr(
                x,
                t.rdrs1,
                iword(
                    xlen,
                    i32_specs::wrapping_add(
                        x[t.rdrs1 as int].spec_low_u32() as i32,
                        t.imm.sext_val() as i32,
                    ) as int,
                ),
                mem,
                pcn,
            )
        },
        RVC::Cli(t) => step_wr(x, t.rdrs1, iword(xlen, t.imm.sext_val()), mem, pcn),
        RVC::Caddi16sp(t) => step_wr(
            x,
            2,
            x[2].spec_wrapping_add_signed(iword_s(xlen, t.imm.sext_val())),
            mem,
            pcn,
        ),
        RVC::Clui(t) => step_wr(x, t.rdrs1, iword(xlen, t.imm.sext_val()), mem, pcn),
        RVC::Csrli(t) => if xlen != Xlen::X64 && t.imm.masked() % 64 >= 32 {
            unsupported
        } else {
            step_wr(x, t.rdrs1, x[t.rdrs1 as int].spec_shr((t.imm.masked() % 64) as u32), mem, pcn)
        },
        RVC::Csrli64(_) => unsupported,
        RVC::Csrai(t) => if xlen != Xlen::X64 && t.imm.masked() % 64 >= 32 {
            unsupported
        } else {
            step_wr(
                x,
                t.rdrs1,
                x[t.rdrs1 as int].spec_as_signed().spec_shr_arith(
                    (t.imm.masked() % 64) as u32,
                ).spec_cast_to_usize(),
                mem,
                pcn,
            )
        },
        RVC::Csrai64(_) => unsupported,
        RVC::Candi(t) => step_wr(
            x,
            t.rdrs1,
            x[t.rdrs1 as int].spec_bit_and(iword(xlen, t.imm.sext_val())),
            mem,
            pcn,
        ),
        RVC::Csub(t) => step_wr(
            x,
            t.rdrs1,
            x[t.rdrs1 as int].spec_wrapping_sub(x[t.rs2 as int]),
            mem,
            pcn,
        ),
        RVC::Cxor(t) => step_wr(
            x,
            t.rdrs1,
            x[t.rdrs1 as int].spec_bit_xor(x[t.rs2 as int]),
            mem,
            pcn,
        ),
        RVC::Cor(t) => step_wr(
            x,
            t.rdrs1,
            x[t.rdrs1 as int].spec_bit_or(x[t.rs2 as int]),
            mem,
            pcn,
        ),
        RVC::Cand(t) => step_wr(
            x,
            t.rdrs1,
            x[t.rdrs1 as int].spec_bit_and(x[t.rs2 as int]),
            mem,
            pcn,
        ),
        RVC::Csubw(t) => if xlen != Xlen::X64 {
            unsupported
        } else {
            step_wr(
                x,
                t.rdrs1,
                iword(
                    xlen,
                    i32_specs::wrapping_sub(
                        x[t.rdrs1 as int].spec_low_u32() as i32,
                        x[t.rs2 as int].spec_low_u32() as i32,
                    ) as int,
                ),
                mem,
                pcn,
            )
        },
        RVC::Caddw(t) => if xlen != Xlen::X64 {
            unsupported
        } else {
            step_wr(
                x,
                t.rdrs1,
                iword(
                    xlen,
                    i32_specs::wrapping_add(
                        x[t.rdrs1 as int].spec_low_u32() as i32,
                        x[t.rs2 as int].spec_low_u32() as i32,
                    ) as int,
                ),
                mem,
                pcn,
            )
        },
        RVC::Cj(t) => step_jump(x, mem, spec_target(pc, t.target, xlen)),
        RVC::Cbeqz(t) => step_jump(
            x,
            mem,
            if x[t.rs1 as int].as_nat() == 0 {
                spec_target(pc, t.off, xlen)
            } else {
                pcn
            },
        ),
        RVC::Cbnez(t) => step_jump(
            x,
            mem,
            if x[t.rs1 as int].as_nat() != 0 {
                spec_target(pc, t.off, xlen)
            } else {
                pcn
            },
        ),
        RVC::Cslli(t) => if xlen != Xlen::X64 && t.imm.masked() % 64 >= 32 {
            unsupported
        } else {
            step_wr(x, t.rdrs1, x[t.rdrs1 as int].spec_shl((t.imm.masked() % 64) as u32), mem, pcn)
        },
        RVC::Cslli64(_) => unsupported,
        RVC::Cfldsp(_) => unsupported,
        RVC::Clqsp(_) => unsupported,
        RVC::Clwsp(t) => match mem.spec_read_uint(spec_ea_u(x, 2, t.imm, xlen), 4, Intent::Read) {
            Ok(v) => step_wr(x, t.rdrs1, iword(xlen, (v as u32 as i32) as int), mem, pcn),
            Err(e) => step_fault(Error::Mem64(e), x, mem, pcn),
        },
        RVC::Cflwsp(_) => unsupported,
        RVC::Cldsp(t) => if xlen != Xlen::X64 {
            unsupported
        } else {
            match mem.spec_read_uint(spec_ea_u(x, 2, t.imm, xlen), 8, Intent::Read) {
                Ok(v) => step_wr(x, t.rdrs1, iword(xlen, (v as u64 as i64) as int), mem, pcn),
                Err(e) => step_fault(Error::Mem64(e), x, mem, pcn),
            }
        },
        RVC::Cjr(t) => step_jump(x, mem, x[t.rdrs1 as int].spec_bit_and(iword(xlen, -2))),
        RVC::Cmv(t) => step_wr(x, t.rdrs1, x[t.rs2 as int], mem, pcn),
        RVC::Cebreak(_) => step_fault(Error::Exec(ExecError::Breakpoint), x, mem, pcn),
        RVC::Cjalr(t) => StepOut {
            r: Ok(()),
            x: xw(x, 1, pcn),
            mem: mem.sections(),
            pc_nxt: x[t.rdrs1 as int].spec_bit_and(iword(xlen, -2)),
        },
        RVC::Cadd(t) => step_wr(
            x,
            t.rdrs1,
            x[t.rdrs1 as int].spec_wrapping_add(x[t.rs2 as int]),
            mem,
            pcn,
        ),
        RVC::Cfsdsp(_) => unsupported,
        RVC::Csqsp(_) => unsupported,
        RVC::Cswsp(t) => match mem.spec_write_uint(
            spec_ea_u(x, 2, t.imm, xlen),
            (x[t.rs2 as int].as_nat() % 0x1_0000_0000) as u64,
            4,
        ) {
            Ok(ss) => StepOut { r: Ok(()), x, mem: ss, pc_nxt: pcn },
            Err(e) => step_fault(Error::Mem64(e), x, mem, pcn),
        },
        RVC::Cfswsp(_) => unsupported,
        RVC::Csdsp(t) => if xlen != Xlen::X64 {
            unsupported
        } else {
            match mem.spec_write_uint(
                spec_ea_u(x, 2, t.imm, xlen),
                x[t.rs2 as int].as_nat() as u64,
                8,
            ) {
                Ok(ss) => StepOut { r: Ok(()), x, mem: ss, pc_nxt: pcn },
                Err(e) => step_fault(Error::Mem64(e), x, mem, pcn),
            }
        },
    }
}


/// Execute one compressed instruction.
#[verifier::rlimit(100)]
fn exec_rvc(
    ins: RVC,
    x: &mut XReg,
    mem: &mut Physical,
    pc: Usize,
    pc_nxt: &mut Usize,
    xlen: Xlen,
) -> (r: Result<(), Error>)
    requires
        rvc_wf(ins),
        xlen != Xlen::X128,
        old(x).wf(),
        old(x).spec_xlen() == xlen,
        old(mem).wf(),
        pc.matches_xlen(xlen),
        old(pc_nxt).matches_xlen(xlen),
    ensures
        final(x).wf(),
        final(x).spec_xlen() == xlen,
        final(mem).wf(),
        final(pc_nxt).matches_xlen(xlen),
        ({
            let so = spec_rvc_step(ins, old(x)@, *old(mem), pc, *old(pc_nxt), xlen);
            r == so.r && final(x)@ == so.x && final(mem).sections() == so.mem && *final(pc_nxt)
                == so.pc_nxt
        }),
{
    match ins {
        RVC::Caddi4spn(t) => {
            x.w_usize(t.rd, x.r_usize(2).wrapping_add(t.imm.as_uimm().zext(xlen)));
            Ok(())
        },
        RVC::Clw(t) => {
            let addr = x.r_usize(t.rs1).wrapping_add(t.imm.as_uimm().zext(xlen)).to_mem_addr();
            match mem.read_i32(addr) {
                Ok(d) => {
                    x.w_sext32(t.rd, d);
                    Ok(())
                },
                Err(e) => Err(Error::Mem64(e)),
            }
        },
        RVC::Cld(t) => {
            if !matches!(xlen, Xlen::X64) {
                return Err(Error::Exec(ExecError::ExtensionNotSupported));
            }
            let addr = x.r_usize(t.rs1).wrapping_add(t.imm.as_uimm().zext(xlen)).to_mem_addr();
            match mem.read_i64(addr) {
                Ok(d) => {
                    x.w_sext64(t.rd, d);
                    Ok(())
                },
                Err(e) => Err(Error::Mem64(e)),
            }
        },
        RVC::Csw(t) => {
            let addr = x.r_usize(t.rs1).wrapping_add(t.imm.as_uimm().zext(xlen)).to_mem_addr();
            match mem.write_u32(addr, x.r_u32(t.rs2)) {
                Ok(()) => Ok(()),
                Err(e) => Err(Error::Mem64(e)),
            }
        },
        RVC::Csd(t) => {
            if !matches!(xlen, Xlen::X64) {
                return Err(Error::Exec(ExecError::ExtensionNotSupported));
            }
            let addr = x.r_usize(t.rs1).wrapping_add(t.imm.as_uimm().zext(xlen)).to_mem_addr();
            match mem.write_u64(addr, x.r_u64(t.rs2)) {
                Ok(()) => Ok(()),
                Err(e) => Err(Error::Mem64(e)),
            }
        },
        RVC::Cnop(_) => Ok(()),
        RVC::Caddi(t) => {
            x.w_usize(t.rdrs1, x.r_usize(t.rdrs1).wrapping_add_signed(t.imm.sext(xlen)));
            Ok(())
        },
        RVC::Cjal(t) => {
            if matches!(xlen, Xlen::X64) {
                return Err(Error::Exec(ExecError::ExtensionNotSupported));
            }
            let pc_link = *pc_nxt;
            *pc_nxt = pc.wrapping_add_signed(t.target.sext(xlen));
            x.w_usize(1, pc_link);
            Ok(())
        },
        RVC::Caddiw(t) => {
            if !matches!(xlen, Xlen::X64) {
                return Err(Error::Exec(ExecError::ExtensionNotSupported));
            }
            x.w_sext32(t.rdrs1, x.r_i32(t.rdrs1).wrapping_add(t.imm.sext32()));
            Ok(())
        },
        RVC::Cli(t) => {
            x.w_isize(t.rdrs1, t.imm.sext(xlen));
            Ok(())
        },
        RVC::Caddi16sp(t) => {
            x.w_usize(2, x.r_usize(2).wrapping_add_signed(t.imm.sext(xlen)));
            Ok(())
        },
        RVC::Clui(t) => {
            x.w_isize(t.rdrs1, t.imm.sext(xlen));
            Ok(())
        },
        RVC::Csrli(t) => {
            let sh = t.imm.low32() % 64;
            if !matches!(xlen, Xlen::X64) && sh >= 32 {
                return Err(Error::Exec(ExecError::ExtensionNotSupported));
            }
            x.w_usize(t.rdrs1, x.r_usize(t.rdrs1).shr(sh));
            Ok(())
        },
        RVC::Csrai(t) => {
            let sh = t.imm.low32() % 64;
            if !matches!(xlen, Xlen::X64) && sh >= 32 {
                return Err(Error::Exec(ExecError::ExtensionNotSupported));
            }
            x.w_isize(t.rdrs1, x.r_isize(t.rdrs1).shr_arith(sh));
            Ok(())
        },
        RVC::Candi(t) => {
            x.w_usize(t.rdrs1, x.r_usize(t.rdrs1).bit_and(t.imm.sext(xlen).cast_to_usize()));
            Ok(())
        },
        RVC::Csub(t) => {
            x.w_usize(t.rdrs1, x.r_usize(t.rdrs1).wrapping_sub(x.r_usize(t.rs2)));
            Ok(())
        },
        RVC::Cxor(t) => {
            x.w_usize(t.rdrs1, x.r_usize(t.rdrs1).bit_xor(x.r_usize(t.rs2)));
            Ok(())
        },
        RVC::Cor(t) => {
            x.w_usize(t.rdrs1, x.r_usize(t.rdrs1).bit_or(x.r_usize(t.rs2)));
            Ok(())
        },
        RVC::Cand(t) => {
            x.w_usize(t.rdrs1, x.r_usize(t.rdrs1).bit_and(x.r_usize(t.rs2)));
            Ok(())
        },
        RVC::Csubw(t) => {
            if !matches!(xlen, Xlen::X64) {
                return Err(Error::Exec(ExecError::ExtensionNotSupported));
            }
            x.w_sext32(t.rdrs1, x.r_i32(t.rdrs1).wrapping_sub(x.r_i32(t.rs2)));
            Ok(())
        },
        RVC::Caddw(t) => {
            if !matches!(xlen, Xlen::X64) {
                return Err(Error::Exec(ExecError::ExtensionNotSupported));
            }
            x.w_sext32(t.rdrs1, x.r_i32(t.rdrs1).wrapping_add(x.r_i32(t.rs2)));
            Ok(())
        },
        RVC::Cj(t) => {
            *pc_nxt = pc.wrapping_add_signed(t.target.sext(xlen));
            Ok(())
        },
        RVC::Cbeqz(t) => {
            if x.r_usize(t.rs1) == x.r_usize(0) {
                *pc_nxt = pc.wrapping_add_signed(t.off.sext(xlen));
            }
            Ok(())
        },
        RVC::Cbnez(t) => {
            if x.r_usize(t.rs1) != x.r_usize(0) {
                *pc_nxt = pc.wrapping_add_signed(t.off.sext(xlen));
            }
            Ok(())
        },
        RVC::Cslli(t) => {
            let sh = t.imm.low32() % 64;
            if !matches!(xlen, Xlen::X64) && sh >= 32 {
                return Err(Error::Exec(ExecError::ExtensionNotSupported));
            }
            x.w_usize(t.rdrs1, x.r_usize(t.rdrs1).shl(sh));
            Ok(())
        },
        RVC::Clwsp(t) => {
            let addr = x.r_usize(2).wrapping_add(t.imm.as_uimm().zext(xlen)).to_mem_addr();
            match mem.read_i32(addr) {
                Ok(d) => {
                    x.w_sext32(t.rdrs1, d);
                    Ok(())
                },
                Err(e) => Err(Error::Mem64(e)),
            }
        },
        RVC::Cldsp(t) => {
            if !matches!(xlen, Xlen::X64) {
                return Err(Error::Exec(ExecError::ExtensionNotSupported));
            }
            let addr = x.r_usize(2).wrapping_add(t.imm.as_uimm().zext(xlen)).to_mem_addr();
            match mem.read_i64(addr) {
                Ok(d) => {
                    x.w_sext64(t.rdrs1, d);
                    Ok(())
                },
                Err(e) => Err(Error::Mem64(e)),
            }
        },
        RVC::Cjr(t) => {
            *pc_nxt = x.r_usize(t.rdrs1).bit_and(low_bit_mask(xlen));
            Ok(())
        },
        RVC::Cmv(t) => {
            x.w_usize(t.rdrs1, x.r_usize(t.rs2));
            Ok(())
        },
        RVC::Cebreak(_) => Err(Error::Exec(ExecError::Breakpoint)),
        RVC::Cjalr(t) => {
            let pc_link = *pc_nxt;
            *pc_nxt = x.r_usize(t.rdrs1).bit_and(low_bit_mask(xlen));
            x.w_usize(1, pc_link);
            Ok(())
        },
        RVC::Cadd(t) => {
            x.w_usize(t.rdrs1, x.r_usize(t.rdrs1).wrapping_add(x.r_usize(t.rs2)));
            Ok(())
        },
        RVC::Cswsp(t) => {
            let addr = x.r_usize(2).wrapping_add(t.imm.as_uimm().zext(xlen)).to_mem_addr();
            match mem.write_u32(addr, x.r_u32(t.rs2)) {
                Ok(()) => Ok(()),
                Err(e) => Err(Error::Mem64(e)),
            }
        },
        RVC::Csdsp(t) => {
            if !matches!(xlen, Xlen::X64) {
                return Err(Error::Exec(ExecError::ExtensionNotSupported));
            }
            let addr = x.r_usize(2).wrapping_add(t.imm.as_uimm().zext(xlen)).to_mem_addr();
            match mem.write_u64(addr, x.r_u64(t.rs2)) {
                Ok(()) => Ok(()),
                Err(e) => Err(Error::Mem64(e)),
            }
        },
        RVC::Cfld(_) => Err(Error::Exec(ExecError::ExtensionNotSupported)),
        RVC::Clq(_) => Err(Error::Exec(ExecError::ExtensionNotSupported)),
        RVC::Cflw(_) => Err(Error::Exec(ExecError::ExtensionNotSupported)),
        RVC::Cfsd(_) => Err(Error::Exec(ExecError::ExtensionNotSupported)),
        RVC::Csq(_) => Err(Error::Exec(ExecError::ExtensionNotSupported)),
        RVC::Cfsw(_) => Err(Error::Exec(ExecError::ExtensionNotSupported)),
        RVC::Csrli64(_) => Err(Error::Exec(ExecError::ExtensionNotSupported)),
        RVC::Csrai64(_) => Err(Error::Exec(ExecError::ExtensionNotSupported)),
        RVC::Cslli64(_) => Err(Error::Exec(ExecError::ExtensionNotSupported)),
        RVC::Cfldsp(_) => Err(Error::Exec(ExecError::ExtensionNotSupported)),
        RVC::Clqsp(_) => Err(Error::Exec(ExecError::ExtensionNotSupported)),
        RVC::Cflwsp(_) => Err(Error::Exec(ExecError::ExtensionNotSupported)),
        RVC::Cfsdsp(_) => Err(Error::Exec(ExecError::ExtensionNotSupported)),
        RVC::Csqsp(_) => Err(Error::Exec(ExecError::ExtensionNotSupported)),
        RVC::Cfswsp(_) => Err(Error::Exec(ExecError::ExtensionNotSupported)),
    }
}


/// The execution engine: it owns the integer, floating-point and
/// control-register files, carries the machine width, and borrows the
/// memory for the span of each `execute` call.
pub struct Execute {
    x: XReg,
    f: FReg,
    csr: Csr,
    xlen: Xlen,
}

impl Execute {
    /// The machine width the engine was created with.
    pub closed spec fn spec_xlen(self) -> Xlen {
        self.xlen
    }

    /// The integer register file, as a sequence of 32 words.
    pub closed spec fn regs(self) -> Seq<Usize> {
        self.x@
    }

    /// The control-register file.
    pub closed spec fn csrs(self) -> Csr {
        self.csr
    }

    /// The register files are internally consistent with the engine's
    /// width.
    pub closed spec fn files_wf(self) -> bool {
        &&& self.x.wf()
        &&& self.x.spec_xlen() == self.xlen
    }

    /// Well-formed: both register files carry the engine's width, which
    /// is never the reserved one, and register 0 is zero.
    pub open spec fn wf(self) -> bool {
        &&& self.spec_xlen() != Xlen::X128
        &&& self.regs().len() == 32
        &&& forall|i: int|
            0 <= i < 32 ==> (#[trigger] self.regs()[i]).matches_xlen(self.spec_xlen())
        &&& self.regs()[0].as_nat() == 0
        &&& self.csrs().wf()
        &&& self.csrs().spec_xlen() == self.spec_xlen()
        &&& self.files_wf()
    }

    /// A fresh engine: all registers and CSRs zero.  The reserved
    /// 128-bit width is rejected at construction.
    pub fn new(xlen: Xlen) -> (r: Execute)
        requires
            xlen != Xlen::X128,
        ensures
            r.wf(),
            r.spec_xlen() == xlen,
            forall|i: int| 0 <= i < 32 ==> (#[trigger] r.regs()[i]).as_nat() == 0,
            r.csrs().spec_fcsr() == 0,
            forall|i: int| 0 <= i < 4096 ==> (#[trigger] r.csrs().slots()[i]) == 0u64,
    {
        let x = XReg::new_zeroed(xlen);
        proof {
            assert(x.wf());
        }
        Execute { x, f: FReg::new_zeroed(), csr: Csr::new(xlen), xlen }
    }

    /// Read one register; the engine's view of the file, for callers
    /// that inspect state between steps.
    pub fn r_usize(&self, idx: u8) -> (r: Usize)
        requires
            self.wf(),
            idx < 32,
        ensures
            r == self.regs()[idx as int],
    {
        self.x.r_usize(idx)
    }

    /// Write one register; writes to register 0 are dropped.
    pub fn w_usize(&mut self, idx: u8, val: Usize)
        requires
            old(self).wf(),
            idx < 32,
            val.matches_xlen(old(self).spec_xlen()),
        ensures
            final(self).wf(),
            final(self).spec_xlen() == old(self).spec_xlen(),
            final(self).regs() == xw(old(self).regs(), idx, val),
            final(self).csrs() == old(self).csrs(),
    {
        self.x.w_usize(idx, val);
    }

    /// Read one CSR, clamped to the machine's width.
    pub fn r_csr(&self, csr: u16) -> (r: Usize)
        requires
            self.wf(),
            csr < 4096,
        ensures
            r.matches_xlen(self.spec_xlen()),
            r.as_nat() == self.csrs().spec_read(csr),
    {
        self.csr.r_usize(csr)
    }

    /// Execute one decoded instruction against this engine's registers
    /// and the given memory.
    ///
    /// `pc` is the instruction's own address and `pc_nxt` arrives as the
    /// sequentially following address; branches and jumps overwrite it,
    /// every other instruction leaves it.  The step's effect and its
    /// faults are exactly the family's mathematical step function.
    #[verifier::rlimit(100)]
    pub fn execute(
        &mut self,
        mem: &mut Physical,
        ins: Instruction,
        pc: Usize,
        pc_nxt: &mut Usize,
    ) -> (r: Result<(), Error>)
        requires
            old(self).wf(),
            old(mem).wf(),
            ins_wf(ins),
            pc.matches_xlen(old(self).spec_xlen()),
            old(pc_nxt).matches_xlen(old(self).spec_xlen()),
        ensures
            final(self).wf(),
            final(self).spec_xlen() == old(self).spec_xlen(),
            final(mem).wf(),
            final(pc_nxt).matches_xlen(old(self).spec_xlen()),
            match ins {
                Instruction::RV32I(i) => ({
                    let so = spec_rv32i_step(
                        i,
                        old(self).regs(),
                        *old(mem),
                        pc,
                        *old(pc_nxt),
                        old(self).spec_xlen(),
                    );
                    r == so.r && final(self).regs() == so.x && final(mem).sections() == so.mem
                        && *final(pc_nxt) == so.pc_nxt && final(self).csrs() == old(self).csrs()
                }),
                Instruction::RV64I(i) => ({
                    let so = spec_rv64i_step(
                        i,
                        old(self).regs(),
                        *old(mem),
                        *old(pc_nxt),
                        old(self).spec_xlen(),
                    );
                    r == so.r && final(self).regs() == so.x && final(mem).sections() == so.mem
                        && *final(pc_nxt) == so.pc_nxt && final(self).csrs() == old(self).csrs()
                }),
                Instruction::RVC(c) => ({
                    let so = spec_rvc_step(
                        c,
                        old(self).regs(),
                        *old(mem),
                        pc,
                        *old(pc_nxt),
                        old(self).spec_xlen(),
                    );
                    r == so.r && final(self).regs() == so.x && final(mem).sections() == so.mem
                        && *final(pc_nxt) == so.pc_nxt && final(self).csrs() == old(self).csrs()
                }),
                Instruction::RVZicsr(z) => r == Ok::<(), Error>(()) && spec_rvzicsr_rel(
                    z,
                    old(self).regs(),
                    old(self).csrs(),
                    final(self).regs(),
                    final(self).csrs(),
                    old(self).spec_xlen(),
                ) && final(mem).sections() == old(mem).sections() && *final(pc_nxt) == *old(
                    pc_nxt,
                ),
            },
    {
        let xlen = self.xlen;
        match ins {
            Instruction::RV32I(i) => exec_rv32i(i, &mut self.x, mem, pc, pc_nxt, xlen),
            Instruction::RV64I(i) => exec_rv64i(i, &mut self.x, mem, pc_nxt, xlen),
            Instruction::RVC(c) => exec_rvc(c, &mut self.x, mem, pc, pc_nxt, xlen),
            Instruction::RVZicsr(z) => exec_rvzicsr(z, &mut self.x, &mut self.csr, xlen),
        }
    }
}


/// A 64-bit word that holds a sign-extended 32-bit value: its bits 63
/// through 31 all agree.
pub open spec fn sign_canonical32(w: Usize) -> bool {
    match w {
        Usize::U64(u) => (u >> 31u64) == 0u64 || (u >> 31u64) == 0x1_FFFF_FFFFu64,
        Usize::U32(_) => false,
    }
}

/// A 32-bit signed value sign-extended to 64 bits has bits 63 through
/// 31 all equal to its sign.
proof fn lemma_sext32_shift(v: i32)
    by (bit_vector)
    ensures
        ((v as i64 as u64) >> 31u64) == (if v < 0i32 {
            0x1_FFFF_FFFFu64
        } else {
            0u64
        }),
{
}

/// Which register an RV64I W-suffix instruction writes; 32 for the
/// forms that are not W-suffix ones.
pub open spec fn w_form_rd(ins: RV64I) -> u8 {
    match ins {
        RV64I::Addiw(i) => i.rd,
        RV64I::Slliw(i) => i.rd,
        RV64I::Srliw(i) => i.rd,
        RV64I::Sraiw(i) => i.rd,
        RV64I::Addw(t) => t.rd,
        RV64I::Subw(t) => t.rd,
        RV64I::Sllw(t) => t.rd,
        RV64I::Srlw(t) => t.rd,
        RV64I::Sraw(t) => t.rd,
        _ => 32,
    }
}

/// Whether an RV64I instruction is one of the W-suffix forms.
pub open spec fn is_w_form(ins: RV64I) -> bool {
    w_form_rd(ins) < 32
}

/// Law: on a 64-bit machine, every W-suffix instruction leaves in its
/// destination register the 32-bit signed result sign-extended to 64
/// bits — bits 63 through 31 of the written word all agree.
pub proof fn lemma_w_suffix_canonical(
    ins: RV64I,
    x: Seq<Usize>,
    mem: Physical,
    pcn: Usize,
    j: int,
)
    requires
        rv64i_wf(ins),
        is_w_form(ins),
        x.len() == 32,
        0 <= j < 32,
    ensures
        ({
            let so = spec_rv64i_step(ins, x, mem, pcn, Xlen::X64);
            (so.r is Ok && j == w_form_rd(ins) && j != 0) ==> sign_canonical32(so.x[j])
        }),
{
    let so = spec_rv64i_step(ins, x, mem, pcn, Xlen::X64);
    if so.r is Ok && j == w_form_rd(ins) && j != 0 {
        match ins {
            RV64I::Addiw(i) => {
                lemma_sext32_shift(
                    i32_specs::wrapping_add(
                        x[i.rd as int].spec_low_u32() as i32,
                        i.imm.sext_val() as i32,
                    ),
                );
                lemma_sext32_shift(
                    i32_specs::wrapping_add(
                        x[i.rs1 as int].spec_low_u32() as i32,
                        i.imm.sext_val() as i32,
                    ),
                );
            },
            RV64I::Slliw(i) => {
                lemma_sext32_shift(
                    (x[i.rs1 as int].spec_low_u32() << ((i.imm.masked() % 32) as u32)) as i32,
                );
            },
            RV64I::Srliw(i) => {
                lemma_sext32_shift(
                    (x[i.rs1 as int].spec_low_u32() >> ((i.imm.masked() % 32) as u32)) as i32,
                );
            },
            RV64I::Sraiw(i) => {
                lemma_sext32_shift(
                    (x[i.rs1 as int].spec_low_u32() as i32) >> ((i.imm.masked() % 32) as u32),
                );
            },
            RV64I::Addw(t) => {
                lemma_sext32_shift(
                    i32_specs::wrapping_add(
                        x[t.rs1 as int].spec_low_u32() as i32,
                        x[t.rs2 as int].spec_low_u32() as i32,
                    ),
                );
            },
            RV64I::Subw(t) => {
                lemma_sext32_shift(
                    i32_specs::wrapping_sub(
                        x[t.rs1 as int].spec_low_u32() as i32,
                        x[t.rs2 as int].spec_low_u32() as i32,
                    ),
                );
            },
            RV64I::Sllw(t) => {
                lemma_sext32_shift(
                    (x[t.rs1 as int].spec_low_u32() << ((x[t.rs2 as int].spec_low_u32()
                        % 32) as u32)) as i32,
                );
            },
            RV64I::Srlw(t) => {
                lemma_sext32_shift(
                    (x[t.rs1 as int].spec_low_u32() >> ((x[t.rs2 as int].spec_low_u32()
                        % 32) as u32)) as i32,
                );
            },
            RV64I::Sraw(t) => {
                lemma_sext32_shift(
                    (x[t.rs1 as int].spec_low_u32() as i32) >> ((x[t.rs2 as int].spec_low_u32()
                        % 32) as u32),
                );
            },
            _ => {
            },
        }
    }
}

} // verus!
