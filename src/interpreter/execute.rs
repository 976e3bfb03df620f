use vstd::prelude::*;
use vstd::arithmetic::div_mod::{lemma_mod_add_multiples_vanish, lemma_small_mod};

use super::bus::{in_dram, load_spec, store_spec};
use super::cpu::{Cpu, MachineState, fetch_spec};
use super::decode::{AluOp, BranchCond, CsrOp, Instr, decode, decode_spec, lemma_decode_spec_wf};
use super::exception::Exception;
use super::instruction::{imm_b, sign_extend};

verus! {

/// The canonical `ebreak` word.
pub const EBREAK: u32 = 0b000000000001_00000_000_00000_1110011;

/// The canonical `ecall` word.
pub const ECALL: u32 = 0b000000000000_00000_000_00000_1110011;

/// How many instructions `Cpu::execute` runs at most before it gives up.
pub const MAX_CYCLES: u64 = 0xffff_ffff_ffff_ffff;

/// The low 32 bits of `v`, sign-extended to 64 bits.
pub open spec fn sext32(v: u64) -> u64 {
    sign_extend(v & 0xffff_ffff, 32)
}

/// `v` read as a two's-complement number and shifted right by `shamt`, copying the sign bit in.
pub open spec fn sra_spec(v: u64, shamt: u64) -> u64 {
    ((v as i64) >> shamt) as u64
}

/// The 64-bit result of `op` on `a` and `b`; shifts use the low 6 bits of `b`.
pub open spec fn alu_spec(op: AluOp, a: u64, b: u64) -> u64 {
    match op {
        AluOp::Add => a.wrapping_add(b),
        AluOp::Sub => a.wrapping_sub(b),
        AluOp::Sll => a << (b & 0x3f),
        AluOp::Slt => if (a as i64) < (b as i64) {
            1
        } else {
            0
        },
        AluOp::Sltu => if a < b {
            1
        } else {
            0
        },
        AluOp::Xor => a ^ b,
        AluOp::Srl => a >> (b & 0x3f),
        AluOp::Sra => sra_spec(a, b & 0x3f),
        AluOp::Or => a | b,
        AluOp::And => a & b,
    }
}

/// The result of the word form of `op`: computed on the low 32 bits of the operands, then
/// sign-extended from bit 31; shifts use the low 5 bits of `b`.
pub open spec fn alu_32_spec(op: AluOp, a: u64, b: u64) -> u64 {
    match op {
        AluOp::Add => sext32(a.wrapping_add(b)),
        AluOp::Sub => sext32(a.wrapping_sub(b)),
        AluOp::Sll => sext32(a << (b & 0x1f)),
        AluOp::Srl => sext32((a & 0xffff_ffff) >> (b & 0x1f)),
        AluOp::Sra => sext32(sra_spec(sext32(a), b & 0x1f)),
        _ => sext32(alu_spec(op, a, b)),
    }
}

/// Whether a branch with comparison `cond` on `a` and `b` is taken.
pub open spec fn branch_taken_spec(cond: BranchCond, a: u64, b: u64) -> bool {
    match cond {
        BranchCond::Eq => a == b,
        BranchCond::Ne => a != b,
        BranchCond::Lt => (a as i64) < (b as i64),
        BranchCond::Ge => (a as i64) >= (b as i64),
        BranchCond::Ltu => a < b,
        BranchCond::Geu => a >= b,
    }
}

/// The new CSR value of a CSR access of kind `access` on old value `old` and source `src`.
pub open spec fn csr_update_spec(access: CsrOp, old: u64, src: u64) -> u64 {
    match access {
        CsrOp::ReadWrite => src,
        CsrOp::ReadSet => old | src,
        CsrOp::ReadClear => old & !src,
    }
}

/// The state after executing a decoded instruction, or the exception it raises.
/// The program counter moves to the jump or taken-branch target, otherwise on by 4.
pub open spec fn exec_spec(s: MachineState, i: Instr) -> Result<MachineState, Exception> {
    let next = s.pc.wrapping_add(4);
    match i {
        Instr::Lui { rd, imm } => Ok(s.write_reg(rd, imm).with_pc(next)),
        Instr::Auipc { rd, imm } => Ok(s.write_reg(rd, s.pc.wrapping_add(imm)).with_pc(next)),
        Instr::Jal { rd, offset } => Ok(s.write_reg(rd, next).with_pc(s.pc.wrapping_add(offset))),
        Instr::Jalr { rd, rs1, offset } => Ok(
            s.write_reg(rd, next).with_pc(s.regs[rs1 as int].wrapping_add(offset) & !1u64),
        ),
        Instr::Branch { cond, rs1, rs2, offset } => Ok(
            s.with_pc(
                if branch_taken_spec(cond, s.regs[rs1 as int], s.regs[rs2 as int]) {
                    s.pc.wrapping_add(offset)
                } else {
                    next
                },
            ),
        ),
        Instr::Load { size, signed, rd, rs1, offset } => {
            match load_spec(s.mem, s.regs[rs1 as int].wrapping_add(offset), size) {
                Ok(v) => Ok(
                    s.write_reg(
                        rd,
                        if signed {
                            sign_extend(v, size)
                        } else {
                            v
                        },
                    ).with_pc(next),
                ),
                Err(e) => Err(e),
            }
        },
        Instr::Store { size, rs1, rs2, offset } => {
            match store_spec(
                s.mem,
                s.regs[rs1 as int].wrapping_add(offset),
                size,
                s.regs[rs2 as int],
            ) {
                Ok(mem) => Ok((MachineState { mem, ..s }).with_pc(next)),
                Err(e) => Err(e),
            }
        },
        Instr::OpImm { op, rd, rs1, imm } => Ok(
            s.write_reg(rd, alu_spec(op, s.regs[rs1 as int], imm)).with_pc(next),
        ),
        Instr::Op { op, rd, rs1, rs2 } => Ok(
            s.write_reg(rd, alu_spec(op, s.regs[rs1 as int], s.regs[rs2 as int])).with_pc(next),
        ),
        Instr::OpImm32 { op, rd, rs1, imm } => Ok(
            s.write_reg(rd, alu_32_spec(op, s.regs[rs1 as int], imm)).with_pc(next),
        ),
        Instr::Op32 { op, rd, rs1, rs2 } => Ok(
            s.write_reg(rd, alu_32_spec(op, s.regs[rs1 as int], s.regs[rs2 as int])).with_pc(
                next,
            ),
        ),
        Instr::Fence => Ok(s.with_pc(next)),
        Instr::Csr { access, rd, csr, rs1, uimm } => {
            let old = s.csrs[csr as int];
            let src = if uimm {
                rs1 as u64
            } else {
                s.regs[rs1 as int]
            };
            let updated = MachineState {
                csrs: s.csrs.update(csr as int, csr_update_spec(access, old, src)),
                ..s
            };
            Ok(updated.write_reg(rd, old).with_pc(next))
        },
    }
}

/// One execution step on instruction word `inst`: the state after it, or the exception that
/// ends execution. `x0` reads as zero throughout.
pub open spec fn step_spec(s: MachineState, inst: u32) -> Result<MachineState, Exception> {
    if inst == 0 || inst == 0xffff_ffff {
        Err(Exception::IllegalInstruction)
    } else if inst == EBREAK {
        Err(Exception::Breakpoint)
    } else if inst == ECALL {
        Err(Exception::EnvironmentCall)
    } else {
        match decode_spec(inst) {
            Some(i) => exec_spec(s.with_x0_cleared(), i),
            None => Err(Exception::IllegalInstruction),
        }
    }
}

/// Up to `fuel` fetch-execute cycles from `s`: the final state, and the exception that halted
/// the machine, or `None` when the cycles ran out first.
pub open spec fn run_spec(s: MachineState, fuel: nat) -> (MachineState, Option<Exception>)
    decreases fuel,
{
    if fuel == 0 {
        (s, None)
    } else {
        match fetch_spec(s) {
            Err(e) => (s, Some(e)),
            Ok(inst) => match step_spec(s, inst) {
                Ok(next) => run_spec(next, (fuel - 1) as nat),
                Err(e) => (s.with_x0_cleared(), Some(e)),
            },
        }
    }
}

/// `v` read as a two's-complement signed number.
pub open spec fn signed_value(v: u64) -> int {
    if v < 0x8000_0000_0000_0000 {
        v as int
    } else {
        v - 0x1_0000_0000_0000_0000
    }
}

/// Whether an instruction may set the program counter to something other than the next one.
pub open spec fn is_control_transfer(i: Instr) -> bool {
    i is Jal || i is Jalr || i is Branch
}

/// The destination register of an instruction that has one.
pub open spec fn destination(i: Instr) -> usize {
    match i {
        Instr::Lui { rd, .. } => rd,
        Instr::Auipc { rd, .. } => rd,
        Instr::Jal { rd, .. } => rd,
        Instr::Jalr { rd, .. } => rd,
        Instr::Load { rd, .. } => rd,
        Instr::OpImm { rd, .. } => rd,
        Instr::Op { rd, .. } => rd,
        Instr::OpImm32 { rd, .. } => rd,
        Instr::Op32 { rd, .. } => rd,
        Instr::Csr { rd, .. } => rd,
        _ => 0,
    }
}

/// Every instruction that completes and is not a jump or a branch moves the program counter
/// on by 4, modulo 2^64.
pub proof fn lemma_sequential_pc(s: MachineState, inst: u32)
    requires
        decode_spec(inst) matches Some(i) && !is_control_transfer(i),
        step_spec(s, inst) is Ok,
    ensures
        match step_spec(s, inst) {
            Ok(next) => next.pc == s.pc.wrapping_add(4),
            Err(_) => true,
        },
{
}

proof fn lemma_sext32_idempotent()
    by (bit_vector)
    ensures
        forall|v: u64| #[trigger] sext32(sext32(v)) == sext32(v),
        sext32(0) == 0,
{
}

/// The word forms (`addiw`, `slliw`, `srliw`, `sraiw`, `addw`, `subw`, `sllw`, `srlw`, `sraw`)
/// write a value that equals the sign-extension of its own low 32 bits.
pub proof fn lemma_word_results_sign_extended(s: MachineState, inst: u32)
    requires
        s.regs.len() == 32,
        decode_spec(inst) matches Some(i) && (i is OpImm32 || i is Op32),
        step_spec(s, inst) is Ok,
    ensures
        match (step_spec(s, inst), decode_spec(inst)) {
            (Ok(next), Some(i)) => next.regs[destination(i) as int] == sext32(
                next.regs[destination(i) as int],
            ),
            _ => true,
        },
{
    lemma_decode_spec_wf(inst);
    lemma_sext32_idempotent();
}

/// A fetch from an address outside DRAM halts the machine with a load access fault at that
/// address, leaving the state as it was.
pub proof fn lemma_fetch_outside_dram(s: MachineState, fuel: nat)
    requires
        !in_dram(s.pc),
        fuel > 0,
    ensures
        run_spec(s, fuel) == (s, Some(Exception::LoadAccessFault { address: s.pc })),
{
}

/// A taken branch moves the program counter by its signed offset, modulo 2^64: a negative
/// offset below address 0 wraps around to the top of the address space.
pub proof fn lemma_taken_branch_wraps(s: MachineState, inst: u32)
    requires
        s.regs.len() == 32,
        decode_spec(inst) matches Some(Instr::Branch { cond, rs1, rs2, offset })
            && branch_taken_spec(
            cond,
            s.with_x0_cleared().regs[rs1 as int],
            s.with_x0_cleared().regs[rs2 as int],
        ),
    ensures
        match step_spec(s, inst) {
            Ok(next) => next.pc as int == (s.pc as int + signed_value(imm_b(inst)))
                % 0x1_0000_0000_0000_0000,
            Err(_) => false,
        },
{
    lemma_decode_spec_wf(inst);
    let offset = imm_b(inst);
    let m: int = 0x1_0000_0000_0000_0000;
    let sum = s.pc as int + signed_value(offset);
    let target = s.pc.wrapping_add(offset);
    if offset < 0x8000_0000_0000_0000 {
        if sum < m {
            lemma_small_mod(sum as nat, m as nat);
        } else {
            lemma_mod_add_multiples_vanish(sum - m, m);
            lemma_small_mod((sum - m) as nat, m as nat);
        }
    } else {
        if sum >= 0 {
            lemma_small_mod(sum as nat, m as nat);
        } else {
            lemma_mod_add_multiples_vanish(sum, m);
            lemma_small_mod((sum + m) as nat, m as nat);
        }
    }
}

/// `jalr` with the same source and destination register jumps to the address computed from
/// the register's old value, and leaves the return address in it.
pub proof fn lemma_jalr_same_register(s: MachineState, inst: u32)
    requires
        s.regs.len() == 32,
        decode_spec(inst) matches Some(Instr::Jalr { rd, rs1, offset }) && rd == rs1 && rd != 0,
    ensures
        match (step_spec(s, inst), decode_spec(inst)) {
            (Ok(next), Some(Instr::Jalr { rd, rs1, offset })) => next.regs[rd as int]
                == s.pc.wrapping_add(4) && next.pc == s.regs[rs1 as int].wrapping_add(offset)
                & !1u64,
            _ => false,
        },
{
    lemma_decode_spec_wf(inst);
}

/// The low 32 bits of `value`, sign-extended.
fn sext(value: u64) -> (r: u64)
    ensures
        r == sext32(value),
{
    let r = value as u32 as i32 as i64 as u64;
    assert(r == sext32(value)) by (bit_vector)
        requires
            r == value as u32 as i32 as i64 as u64,
    ;
    r
}

/// The low `width` bits of `v` sign-extended to 64 bits.
fn sign_extend_bits(v: u64, width: u64) -> (r: u64)
    requires
        0 < width < 64,
    ensures
        r == sign_extend(v, width),
{
    if (v >> (width - 1)) & 1 == 1 {
        v | (0xffff_ffff_ffff_ffffu64 << width)
    } else {
        v
    }
}

fn wrapping_add(a: u64, b: u64) -> (r: u64)
    ensures
        r == a.wrapping_add(b),
{
    a.wrapping_add(b)
}

fn wrapping_sub(a: u64, b: u64) -> (r: u64)
    ensures
        r == a.wrapping_sub(b),
{
    a.wrapping_sub(b)
}

/// Arithmetic right shift of `v` by `shamt`.
fn arithmetic_right_shift(v: u64, shamt: u64) -> (r: u64)
    requires
        shamt < 64,
    ensures
        r == sra_spec(v, shamt),
{
    ((v as i64) >> shamt) as u64
}

fn alu(op: AluOp, a: u64, b: u64) -> (r: u64)
    ensures
        r == alu_spec(op, a, b),
{
    let shamt = b & 0x3f;
    assert(shamt < 64) by (bit_vector)
        requires
            shamt == b & 0x3f,
    ;
    match op {
        AluOp::Add => wrapping_add(a, b),
        AluOp::Sub => wrapping_sub(a, b),
        AluOp::Sll => a << shamt,
        AluOp::Slt => if (a as i64) < (b as i64) {
            1
        } else {
            0
        },
        AluOp::Sltu => if a < b {
            1
        } else {
            0
        },
        AluOp::Xor => a ^ b,
        AluOp::Srl => a >> shamt,
        AluOp::Sra => arithmetic_right_shift(a, shamt),
        AluOp::Or => a | b,
        AluOp::And => a & b,
    }
}

fn alu_32(op: AluOp, a: u64, b: u64) -> (r: u64)
    ensures
        r == alu_32_spec(op, a, b),
{
    let shamt = b & 0x1f;
    assert(shamt < 32) by (bit_vector)
        requires
            shamt == b & 0x1f,
    ;
    match op {
        AluOp::Add => sext(wrapping_add(a, b)),
        AluOp::Sub => sext(wrapping_sub(a, b)),
        AluOp::Sll => sext(a << shamt),
        AluOp::Srl => sext((a & 0xffff_ffff) >> shamt),
        AluOp::Sra => sext(arithmetic_right_shift(sext(a), shamt)),
        _ => sext(alu(op, a, b)),
    }
}

fn branch_taken(cond: BranchCond, a: u64, b: u64) -> (r: bool)
    ensures
        r == branch_taken_spec(cond, a, b),
{
    match cond {
        BranchCond::Eq => a == b,
        BranchCond::Ne => a != b,
        BranchCond::Lt => (a as i64) < (b as i64),
        BranchCond::Ge => (a as i64) >= (b as i64),
        BranchCond::Ltu => a < b,
        BranchCond::Geu => a >= b,
    }
}

impl Cpu {
    /// Moves the program counter on to the next instruction.
    fn increase_pc(&mut self)
        ensures
            final(self)@ == old(self)@.with_pc(old(self).pc.wrapping_add(4)),
            final(self).bus == old(self).bus,
    {
        self.pc = wrapping_add(self.pc, 4);
    }

    /// Executes a decoded instruction, including its effect on the program counter.
    fn perform(&mut self, i: Instr) -> (r: Result<(), Exception>)
        requires
            old(self).wf(),
            i.wf(),
        ensures
            final(self).wf(),
            match exec_spec(old(self)@, i) {
                Ok(s) => r == Ok::<(), Exception>(()) && final(self)@ == s,
                Err(e) => r == Err::<(), Exception>(e) && final(self)@ == old(self)@,
            },
    {
        let pc = self.pc;
        match i {
            Instr::Lui { rd, imm } => {
                self.write_reg(rd, imm);
                self.increase_pc();
            },
            Instr::Auipc { rd, imm } => {
                self.write_reg(rd, wrapping_add(pc, imm));
                self.increase_pc();
            },
            Instr::Jal { rd, offset } => {
                self.write_reg(rd, wrapping_add(pc, 4));
                self.pc = wrapping_add(pc, offset);
            },
            Instr::Jalr { rd, rs1, offset } => {
                // the target is computed before `rd` is written, as `rd` may be `rs1`
                let target = wrapping_add(self.read_reg(rs1), offset) & !1u64;
                self.write_reg(rd, wrapping_add(pc, 4));
                self.pc = target;
            },
            Instr::Branch { cond, rs1, rs2, offset } => {
                if branch_taken(cond, self.read_reg(rs1), self.read_reg(rs2)) {
                    self.pc = wrapping_add(pc, offset);
                } else {
                    self.increase_pc();
                }
            },
            Instr::Load { size, signed, rd, rs1, offset } => {
                let address = wrapping_add(self.read_reg(rs1), offset);
                let value = match self.bus.load(address, size) {
                    Ok(v) => v,
                    Err(e) => {
                        return Err(e);
                    },
                };
                let value = if signed {
                    sign_extend_bits(value, size)
                } else {
                    value
                };
                self.write_reg(rd, value);
                self.increase_pc();
            },
            Instr::Store { size, rs1, rs2, offset } => {
                let address = wrapping_add(self.read_reg(rs1), offset);
                let value = self.read_reg(rs2);
                match self.bus.store(address, size, value) {
                    Ok(()) => {},
                    Err(e) => {
                        return Err(e);
                    },
                }
                self.increase_pc();
            },
            Instr::OpImm { op, rd, rs1, imm } => {
                let value = alu(op, self.read_reg(rs1), imm);
                self.write_reg(rd, value);
                self.increase_pc();
            },
            Instr::Op { op, rd, rs1, rs2 } => {
                let value = alu(op, self.read_reg(rs1), self.read_reg(rs2));
                self.write_reg(rd, value);
                self.increase_pc();
            },
            Instr::OpImm32 { op, rd, rs1, imm } => {
                let value = alu_32(op, self.read_reg(rs1), imm);
                self.write_reg(rd, value);
                self.increase_pc();
            },
            Instr::Op32 { op, rd, rs1, rs2 } => {
                let value = alu_32(op, self.read_reg(rs1), self.read_reg(rs2));
                self.write_reg(rd, value);
                self.increase_pc();
            },
            Instr::Fence => {
                self.increase_pc();
            },
            Instr::Csr { access, rd, csr, rs1, uimm } => {
                let old = self.csr.load(csr);
                let src = if uimm {
                    rs1 as u64
                } else {
                    self.read_reg(rs1)
                };
                let updated = match access {
                    CsrOp::ReadWrite => src,
                    CsrOp::ReadSet => old | src,
                    CsrOp::ReadClear => old & !src,
                };
                self.csr.store(csr, updated);
                self.write_reg(rd, old);
                self.increase_pc();
            },
        }
        Ok(())
    }

    /// Executes one instruction word: its effects on registers, memory, CSRs and the program
    /// counter, or the exception it raises, in which case only `x0` is touched.
    pub fn execute_instruction(&mut self, inst: u32) -> (r: Result<(), Exception>)
        requires
            old(self).wf(),
        ensures
            final(self).wf(),
            final(self).regs@[0] == 0,
            match step_spec(old(self)@, inst) {
                Ok(s) => r == Ok::<(), Exception>(()) && final(self)@ == s,
                Err(e) => r == Err::<(), Exception>(e) && final(self)@
                    == old(self)@.with_x0_cleared(),
            },
    {
        self.regs[0] = 0;
        assert(self.regs@ =~= old(self)@.with_x0_cleared().regs);
        if inst == 0 || inst == 0xffff_ffff {
            return Err(Exception::IllegalInstruction);
        }
        if inst == EBREAK {
            return Err(Exception::Breakpoint);
        }
        if inst == ECALL {
            return Err(Exception::EnvironmentCall);
        }
        match decode(inst) {
            Some(i) => self.perform(i),
            None => Err(Exception::IllegalInstruction),
        }
    }

    /// Runs fetch-execute cycles until an instruction or a fetch raises an exception, and
    /// returns it; `None` only if `MAX_CYCLES` instructions all completed.
    pub fn execute(&mut self) -> (r: Option<Exception>)
        requires
            old(self).wf(),
        ensures
            final(self).wf(),
            (final(self)@, r) == run_spec(old(self)@, MAX_CYCLES as nat),
    {
        let mut budget: u64 = MAX_CYCLES;
        while budget > 0
            invariant
                self.wf(),
                run_spec(self@, budget as nat) == run_spec(old(self)@, MAX_CYCLES as nat),
            decreases budget,
        {
            let inst = match self.instructure_fetch() {
                Ok(inst) => inst,
                Err(e) => {
                    return Some(e);
                },
            };
            match self.execute_instruction(inst) {
                Ok(()) => {},
                Err(e) => {
                    return Some(e);
                },
            }
            budget = budget - 1;
        }
        None
    }
}

} // verus!
