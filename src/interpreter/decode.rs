use vstd::prelude::*;

use super::csr::CSR_COUNT;
use super::dram::valid_size;
use super::instruction::{
    csr_of, funct3_of, funct7_of, get_funct3, get_funct7, get_imm_type_b, get_imm_type_i,
    get_imm_type_j, get_imm_type_s, get_imm_type_u, get_opcode, get_rd, get_rs1, get_rs2,
    get_shamt, get_shamt_reserved, imm_b, imm_i, imm_j, imm_s, imm_u, opcode_of, rd_of, rs1_of,
    rs2_of, shamt_of, shamt_reserved_of,
};

verus! {

/// Major opcode of `lui`.
pub const OPCODE_LUI: u32 = 0b0110111;

/// Major opcode of `auipc`.
pub const OPCODE_AUIPC: u32 = 0b0010111;

/// Major opcode of `jal`.
pub const OPCODE_JAL: u32 = 0b1101111;

/// Major opcode of `jalr`.
pub const OPCODE_JALR: u32 = 0b1100111;

/// Major opcode of the conditional branches.
pub const OPCODE_BRANCH: u32 = 0b1100011;

/// Major opcode of the loads.
pub const OPCODE_LOAD: u32 = 0b0000011;

/// Major opcode of the stores.
pub const OPCODE_STORE: u32 = 0b0100011;

/// Major opcode of the register-immediate operations.
pub const OPCODE_OP_IMM: u32 = 0b0010011;

/// Major opcode of the register-register operations.
pub const OPCODE_OP: u32 = 0b0110011;

/// Major opcode of the 32-bit register-immediate operations.
pub const OPCODE_OP_IMM_32: u32 = 0b0011011;

/// Major opcode of the 32-bit register-register operations.
pub const OPCODE_OP_32: u32 = 0b0111011;

/// Major opcode of `fence`.
pub const OPCODE_MISC_MEM: u32 = 0b0001111;

/// Major opcode of `ecall`, `ebreak` and the CSR instructions.
pub const OPCODE_SYSTEM: u32 = 0b1110011;

/// Funct7 (and shift class) of the plain form of an operation.
pub const FUNCT7_BASE: u32 = 0b0000000;

/// Funct7 of `sub` and `sra`.
pub const FUNCT7_ALT: u32 = 0b0100000;

/// Bits 31..26 of `srai` and `sraiw`.
pub const SHIFT_ARITH: u32 = 0b010000;

/// An integer operation on two 64-bit operands.
#[derive(Debug, Clone, Copy, PartialEq, Eq, Structural)]
pub enum AluOp {
    Add,
    Sub,
    Sll,
    Slt,
    Sltu,
    Xor,
    Srl,
    Sra,
    Or,
    And,
}

/// The comparison of a conditional branch.
#[derive(Debug, Clone, Copy, PartialEq, Eq, Structural)]
pub enum BranchCond {
    Eq,
    Ne,
    Lt,
    Ge,
    Ltu,
    Geu,
}

/// How a CSR instruction combines the old register value with its source.
#[derive(Debug, Clone, Copy, PartialEq, Eq, Structural)]
pub enum CsrOp {
    /// Replace (`csrrw`, `csrrwi`).
    ReadWrite,
    /// Bitwise OR (`csrrs`, `csrrsi`).
    ReadSet,
    /// Bitwise AND-NOT (`csrrc`, `csrrci`).
    ReadClear,
}

/// A decoded instruction. Offsets and immediates are already sign-extended to 64 bits.
#[derive(Debug, Clone, Copy, PartialEq, Eq, Structural)]
pub enum Instr {
    Lui { rd: usize, imm: u64 },
    Auipc { rd: usize, imm: u64 },
    Jal { rd: usize, offset: u64 },
    Jalr { rd: usize, rs1: usize, offset: u64 },
    Branch { cond: BranchCond, rs1: usize, rs2: usize, offset: u64 },
    /// A load of `size` bits, sign-extended when `signed`.
    Load { size: u64, signed: bool, rd: usize, rs1: usize, offset: u64 },
    /// A store of the low `size` bits of `rs2`.
    Store { size: u64, rs1: usize, rs2: usize, offset: u64 },
    OpImm { op: AluOp, rd: usize, rs1: usize, imm: u64 },
    Op { op: AluOp, rd: usize, rs1: usize, rs2: usize },
    OpImm32 { op: AluOp, rd: usize, rs1: usize, imm: u64 },
    Op32 { op: AluOp, rd: usize, rs1: usize, rs2: usize },
    Fence,
    /// A CSR access; the source is register `rs1`, or the number `rs1` itself when `uimm`.
    Csr { access: CsrOp, rd: usize, csr: usize, rs1: usize, uimm: bool },
}

impl Instr {
    /// Register numbers name one of the 32 registers, CSR numbers one of the CSRs,
    /// access widths are supported ones, and only loads narrower than 64 bits sign-extend.
    pub open spec fn wf(self) -> bool {
        match self {
            Instr::Lui { rd, .. } => rd < 32,
            Instr::Auipc { rd, .. } => rd < 32,
            Instr::Jal { rd, .. } => rd < 32,
            Instr::Jalr { rd, rs1, .. } => rd < 32 && rs1 < 32,
            Instr::Branch { rs1, rs2, .. } => rs1 < 32 && rs2 < 32,
            Instr::Load { size, signed, rd, rs1, .. } => valid_size(size) && (signed ==> size < 64)
                && rd < 32 && rs1 < 32,
            Instr::Store { size, rs1, rs2, .. } => valid_size(size) && rs1 < 32 && rs2 < 32,
            Instr::OpImm { rd, rs1, .. } => rd < 32 && rs1 < 32,
            Instr::Op { rd, rs1, rs2, .. } => rd < 32 && rs1 < 32 && rs2 < 32,
            Instr::OpImm32 { rd, rs1, .. } => rd < 32 && rs1 < 32,
            Instr::Op32 { rd, rs1, rs2, .. } => rd < 32 && rs1 < 32 && rs2 < 32,
            Instr::Fence => true,
            Instr::Csr { rd, csr, rs1, .. } => rd < 32 && csr < CSR_COUNT && rs1 < 32,
        }
    }
}

/// The branch comparison selected by funct3.
pub open spec fn branch_cond_spec(funct3: u32) -> Option<BranchCond> {
    match funct3 {
        0b000 => Some(BranchCond::Eq),
        0b001 => Some(BranchCond::Ne),
        0b100 => Some(BranchCond::Lt),
        0b101 => Some(BranchCond::Ge),
        0b110 => Some(BranchCond::Ltu),
        0b111 => Some(BranchCond::Geu),
        _ => None,
    }
}

/// Width in bits and sign policy of the load selected by funct3.
pub open spec fn load_kind_spec(funct3: u32) -> Option<(u64, bool)> {
    match funct3 {
        0b000 => Some((8u64, true)),
        0b001 => Some((16u64, true)),
        0b010 => Some((32u64, true)),
        0b011 => Some((64u64, false)),
        0b100 => Some((8u64, false)),
        0b101 => Some((16u64, false)),
        0b110 => Some((32u64, false)),
        _ => None,
    }
}

/// Width in bits of the store selected by funct3.
pub open spec fn store_size_spec(funct3: u32) -> Option<u64> {
    match funct3 {
        0b000 => Some(8u64),
        0b001 => Some(16u64),
        0b010 => Some(32u64),
        0b011 => Some(64u64),
        _ => None,
    }
}

/// The operation of an OP-IMM instruction, from funct3 and bits 31..26.
pub open spec fn op_imm_spec(funct3: u32, shift_class: u32) -> Option<AluOp> {
    match funct3 {
        0b000 => Some(AluOp::Add),
        0b010 => Some(AluOp::Slt),
        0b011 => Some(AluOp::Sltu),
        0b100 => Some(AluOp::Xor),
        0b110 => Some(AluOp::Or),
        0b111 => Some(AluOp::And),
        0b001 => if shift_class == FUNCT7_BASE {
            Some(AluOp::Sll)
        } else {
            None
        },
        0b101 => if shift_class == FUNCT7_BASE {
            Some(AluOp::Srl)
        } else if shift_class == SHIFT_ARITH {
            Some(AluOp::Sra)
        } else {
            None
        },
        _ => None,
    }
}

/// The operation of an OP instruction, from funct3 and funct7.
pub open spec fn op_spec(funct3: u32, funct7: u32) -> Option<AluOp> {
    if funct7 == FUNCT7_BASE {
        match funct3 {
            0b000 => Some(AluOp::Add),
            0b001 => Some(AluOp::Sll),
            0b010 => Some(AluOp::Slt),
            0b011 => Some(AluOp::Sltu),
            0b100 => Some(AluOp::Xor),
            0b101 => Some(AluOp::Srl),
            0b110 => Some(AluOp::Or),
            0b111 => Some(AluOp::And),
            _ => None,
        }
    } else if funct7 == FUNCT7_ALT {
        match funct3 {
            0b000 => Some(AluOp::Sub),
            0b101 => Some(AluOp::Sra),
            _ => None,
        }
    } else {
        None
    }
}

/// The operation of an OP-IMM-32 instruction, from funct3 and bits 31..26.
pub open spec fn op_imm_32_spec(funct3: u32, shift_class: u32) -> Option<AluOp> {
    match funct3 {
        0b000 => Some(AluOp::Add),
        0b001 => if shift_class == FUNCT7_BASE {
            Some(AluOp::Sll)
        } else {
            None
        },
        0b101 => if shift_class == FUNCT7_BASE {
            Some(AluOp::Srl)
        } else if shift_class == SHIFT_ARITH {
            Some(AluOp::Sra)
        } else {
            None
        },
        _ => None,
    }
}

/// The operation of an OP-32 instruction, from funct3 and funct7.
pub open spec fn op_32_spec(funct3: u32, funct7: u32) -> Option<AluOp> {
    if funct7 == FUNCT7_BASE {
        match funct3 {
            0b000 => Some(AluOp::Add),
            0b001 => Some(AluOp::Sll),
            0b101 => Some(AluOp::Srl),
            _ => None,
        }
    } else if funct7 == FUNCT7_ALT {
        match funct3 {
            0b000 => Some(AluOp::Sub),
            0b101 => Some(AluOp::Sra),
            _ => None,
        }
    } else {
        None
    }
}

/// The CSR operation selected by funct3, and whether its source is an immediate.
pub open spec fn csr_op_spec(funct3: u32) -> Option<(CsrOp, bool)> {
    match funct3 {
        0b001 => Some((CsrOp::ReadWrite, false)),
        0b010 => Some((CsrOp::ReadSet, false)),
        0b011 => Some((CsrOp::ReadClear, false)),
        0b101 => Some((CsrOp::ReadWrite, true)),
        0b110 => Some((CsrOp::ReadSet, true)),
        0b111 => Some((CsrOp::ReadClear, true)),
        _ => None,
    }
}

/// The instruction that a 32-bit word encodes, or `None` for an encoding outside the
/// supported RV64I subset. `ecall` and `ebreak` are recognised before decoding.
pub open spec fn decode_spec(inst: u32) -> Option<Instr> {
    let opcode = opcode_of(inst);
    let rd = rd_of(inst);
    let rs1 = rs1_of(inst);
    let rs2 = rs2_of(inst);
    let funct3 = funct3_of(inst);
    if opcode == OPCODE_LUI {
        Some(Instr::Lui { rd, imm: imm_u(inst) })
    } else if opcode == OPCODE_AUIPC {
        Some(Instr::Auipc { rd, imm: imm_u(inst) })
    } else if opcode == OPCODE_JAL {
        Some(Instr::Jal { rd, offset: imm_j(inst) })
    } else if opcode == OPCODE_JALR {
        if funct3 == 0 {
            Some(Instr::Jalr { rd, rs1, offset: imm_i(inst) })
        } else {
            None
        }
    } else if opcode == OPCODE_BRANCH {
        match branch_cond_spec(funct3) {
            Some(cond) => Some(Instr::Branch { cond, rs1, rs2, offset: imm_b(inst) }),
            None => None,
        }
    } else if opcode == OPCODE_LOAD {
        match load_kind_spec(funct3) {
            Some((size, signed)) => Some(
                Instr::Load { size, signed, rd, rs1, offset: imm_i(inst) },
            ),
            None => None,
        }
    } else if opcode == OPCODE_STORE {
        match store_size_spec(funct3) {
            Some(size) => Some(Instr::Store { size, rs1, rs2, offset: imm_s(inst) }),
            None => None,
        }
    } else if opcode == OPCODE_OP_IMM {
        match op_imm_spec(funct3, shamt_reserved_of(inst)) {
            Some(op) => {
                let imm = if funct3 == 0b001 || funct3 == 0b101 {
                    shamt_of(inst)
                } else {
                    imm_i(inst)
                };
                Some(Instr::OpImm { op, rd, rs1, imm })
            },
            None => None,
        }
    } else if opcode == OPCODE_OP {
        match op_spec(funct3, funct7_of(inst)) {
            Some(op) => Some(Instr::Op { op, rd, rs1, rs2 }),
            None => None,
        }
    } else if opcode == OPCODE_OP_IMM_32 {
        match op_imm_32_spec(funct3, shamt_reserved_of(inst)) {
            Some(op) => {
                let imm = if funct3 == 0b000 {
                    imm_i(inst)
                } else {
                    shamt_of(inst)
                };
                Some(Instr::OpImm32 { op, rd, rs1, imm })
            },
            None => None,
        }
    } else if opcode == OPCODE_OP_32 {
        match op_32_spec(funct3, funct7_of(inst)) {
            Some(op) => Some(Instr::Op32 { op, rd, rs1, rs2 }),
            None => None,
        }
    } else if opcode == OPCODE_MISC_MEM {
        Some(Instr::Fence)
    } else if opcode == OPCODE_SYSTEM {
        match csr_op_spec(funct3) {
            Some((access, uimm)) => Some(Instr::Csr { access, rd, csr: csr_of(inst), rs1, uimm }),
            None => None,
        }
    } else {
        None
    }
}

/// Every instruction that a word decodes to is well formed, and no word that decodes is
/// one of the words recognised before decoding (0, all ones, `ecall`, `ebreak`).
pub proof fn lemma_decode_spec_wf(inst: u32)
    ensures
        decode_spec(inst) matches Some(i) ==> i.wf(),
        decode_spec(inst) is Some ==> inst != 0 && inst != 0xffff_ffff && inst != 0x0010_0073
            && inst != 0x0000_0073,
{
    assert(((inst >> 7) & 0x1f) < 32 && ((inst >> 15) & 0x1f) < 32 && ((inst >> 20) & 0x1f) < 32
        && (inst >> 20) < 4096) by (bit_vector);
    if inst == 0 || inst == 0xffff_ffff {
        assert(opcode_of(inst) == 0 || opcode_of(inst) == 0x7f) by (bit_vector)
            requires
                inst == 0 || inst == 0xffff_ffff,
        ;
    }
    if inst == 0x0010_0073 || inst == 0x0000_0073 {
        assert(opcode_of(inst) == OPCODE_SYSTEM && funct3_of(inst) == 0) by (bit_vector)
            requires
                inst == 0x0010_0073 || inst == 0x0000_0073,
        ;
    }
}

/// Decodes a 32-bit instruction word.
pub fn decode(inst: u32) -> (r: Option<Instr>)
    ensures
        r == decode_spec(inst),
        r matches Some(i) ==> i.wf(),
{
    let opcode = get_opcode(inst);
    let rd = get_rd(inst);
    let rs1 = get_rs1(inst);
    let rs2 = get_rs2(inst);
    let funct3 = get_funct3(inst);
    if opcode == OPCODE_LUI {
        Some(Instr::Lui { rd, imm: get_imm_type_u(inst) })
    } else if opcode == OPCODE_AUIPC {
        Some(Instr::Auipc { rd, imm: get_imm_type_u(inst) })
    } else if opcode == OPCODE_JAL {
        Some(Instr::Jal { rd, offset: get_imm_type_j(inst) })
    } else if opcode == OPCODE_JALR {
        if funct3 == 0 {
            Some(Instr::Jalr { rd, rs1, offset: get_imm_type_i(inst) })
        } else {
            None
        }
    } else if opcode == OPCODE_BRANCH {
        let cond = match funct3 {
            0b000 => BranchCond::Eq,
            0b001 => BranchCond::Ne,
            0b100 => BranchCond::Lt,
            0b101 => BranchCond::Ge,
            0b110 => BranchCond::Ltu,
            0b111 => BranchCond::Geu,
            _ => {
                return None;
            },
        };
        Some(Instr::Branch { cond, rs1, rs2, offset: get_imm_type_b(inst) })
    } else if opcode == OPCODE_LOAD {
        let (size, signed): (u64, bool) = match funct3 {
            0b000 => (8, true),
            0b001 => (16, true),
            0b010 => (32, true),
            0b011 => (64, false),
            0b100 => (8, false),
            0b101 => (16, false),
            0b110 => (32, false),
            _ => {
                return None;
            },
        };
        Some(Instr::Load { size, signed, rd, rs1, offset: get_imm_type_i(inst) })
    } else if opcode == OPCODE_STORE {
        let size: u64 = match funct3 {
            0b000 => 8,
            0b001 => 16,
            0b010 => 32,
            0b011 => 64,
            _ => {
                return None;
            },
        };
        Some(Instr::Store { size, rs1, rs2, offset: get_imm_type_s(inst) })
    } else if opcode == OPCODE_OP_IMM {
        let shift_class = get_shamt_reserved(inst);
        let op = match funct3 {
            0b000 => AluOp::Add,
            0b010 => AluOp::Slt,
            0b011 => AluOp::Sltu,
            0b100 => AluOp::Xor,
            0b110 => AluOp::Or,
            0b111 => AluOp::And,
            0b001 if shift_class == FUNCT7_BASE => AluOp::Sll,
            0b101 if shift_class == FUNCT7_BASE => AluOp::Srl,
            0b101 if shift_class == SHIFT_ARITH => AluOp::Sra,
            _ => {
                return None;
            },
        };
        let imm = if funct3 == 0b001 || funct3 == 0b101 {
            get_shamt(inst)
        } else {
            get_imm_type_i(inst)
        };
        Some(Instr::OpImm { op, rd, rs1, imm })
    } else if opcode == OPCODE_OP {
        let funct7 = get_funct7(inst);
        let op = match (funct3, funct7) {
            (0b000, FUNCT7_BASE) => AluOp::Add,
            (0b000, FUNCT7_ALT) => AluOp::Sub,
            (0b001, FUNCT7_BASE) => AluOp::Sll,
            (0b010, FUNCT7_BASE) => AluOp::Slt,
            (0b011, FUNCT7_BASE) => AluOp::Sltu,
            (0b100, FUNCT7_BASE) => AluOp::Xor,
            (0b101, FUNCT7_BASE) => AluOp::Srl,
            (0b101, FUNCT7_ALT) => AluOp::Sra,
            (0b110, FUNCT7_BASE) => AluOp::Or,
            (0b111, FUNCT7_BASE) => AluOp::And,
            _ => {
                return None;
            },
        };
        Some(Instr::Op { op, rd, rs1, rs2 })
    } else if opcode == OPCODE_OP_IMM_32 {
        let shift_class = get_shamt_reserved(inst);
        let op = match funct3 {
            0b000 => AluOp::Add,
            0b001 if shift_class == FUNCT7_BASE => AluOp::Sll,
            0b101 if shift_class == FUNCT7_BASE => AluOp::Srl,
            0b101 if shift_class == SHIFT_ARITH => AluOp::Sra,
            _ => {
                return None;
            },
        };
        let imm = if funct3 == 0b000 {
            get_imm_type_i(inst)
        } else {
            get_shamt(inst)
        };
        Some(Instr::OpImm32 { op, rd, rs1, imm })
    } else if opcode == OPCODE_OP_32 {
        let funct7 = get_funct7(inst);
        let op = match (funct3, funct7) {
            (0b000, FUNCT7_BASE) => AluOp::Add,
            (0b000, FUNCT7_ALT) => AluOp::Sub,
            (0b001, FUNCT7_BASE) => AluOp::Sll,
            (0b101, FUNCT7_BASE) => AluOp::Srl,
            (0b101, FUNCT7_ALT) => AluOp::Sra,
            _ => {
                return None;
            },
        };
        Some(Instr::Op32 { op, rd, rs1, rs2 })
    } else if opcode == OPCODE_MISC_MEM {
        Some(Instr::Fence)
    } else if opcode == OPCODE_SYSTEM {
        let (access, uimm) = match funct3 {
            0b001 => (CsrOp::ReadWrite, false),
            0b010 => (CsrOp::ReadSet, false),
            0b011 => (CsrOp::ReadClear, false),
            0b101 => (CsrOp::ReadWrite, true),
            0b110 => (CsrOp::ReadSet, true),
            0b111 => (CsrOp::ReadClear, true),
            _ => {
                return None;
            },
        };
        let csr = (inst >> 20) as usize;
        assert((inst >> 20) < 4096) by (bit_vector);
        Some(Instr::Csr { access, rd, csr, rs1, uimm })
    } else {
        None
    }
}

} // verus!
