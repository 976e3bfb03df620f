use vstd::prelude::*;

use super::cpu::MachineState;
use super::csr::CSR_COUNT;
use super::decode::{OPCODE_LUI, OPCODE_SYSTEM, lemma_decode_spec_wf};
use super::execute::{sext32, step_spec};
use super::instruction::{csr_of, funct3_of, imm_u, opcode_of, rd_of, rs1_of};

verus! {

/// The U-type word with `imm[31:12] = imm20`, destination `rd` and major opcode `opcode`.
pub open spec fn encode_u(opcode: u32, rd: u32, imm20: u32) -> u32 {
    (imm20 << 12) | (rd << 7) | opcode
}

/// The I-type word with `imm[11:0] = imm12`, source `rs1`, `funct3`, destination `rd` and
/// major opcode `opcode`.
pub open spec fn encode_i(opcode: u32, rd: u32, funct3: u32, rs1: u32, imm12: u32) -> u32 {
    (imm12 << 20) | (rs1 << 15) | (funct3 << 12) | (rd << 7) | opcode
}

/// Funct3 of `csrrw`.
pub const FUNCT3_CSRRW: u32 = 0b001;

/// Executing `lui rd, imm` leaves `imm << 12`, sign-extended from bit 31, in `rd`.
pub proof fn lemma_lui_result(s: MachineState, rd: u32, imm: u32)
    requires
        s.regs.len() == 32,
        0 < rd < 32,
        imm < 0x10_0000,
    ensures
        match step_spec(s, encode_u(OPCODE_LUI, rd, imm)) {
            Ok(next) => next.regs[rd as int] == sext32((imm as u64) << 12),
            Err(_) => false,
        },
{
    let w = encode_u(OPCODE_LUI, rd, imm);
    assert(opcode_of(w) == OPCODE_LUI && rd_of(w) == rd && imm_u(w) == sext32((imm as u64) << 12))
        by (bit_vector)
        requires
            w == encode_u(OPCODE_LUI, rd, imm),
            rd < 32,
            imm < 0x10_0000,
    ;
    lemma_decode_spec_wf(w);
}

/// `csrrw rd, csr, rs1` followed by `csrrw rd2, csr, x0` leaves the CSR zero and `rd2` holding
/// the value that `rs1` had before the first instruction.
pub proof fn lemma_csr_write_then_clear(
    s: MachineState,
    rd: u32,
    rs1: u32,
    rd2: u32,
    csr: u32,
)
    requires
        s.regs.len() == 32,
        s.regs[0] == 0,
        s.csrs.len() == CSR_COUNT,
        rd < 32,
        rs1 < 32,
        0 < rd2 < 32,
        csr < CSR_COUNT,
    ensures
        match step_spec(s, encode_i(OPCODE_SYSTEM, rd, FUNCT3_CSRRW, rs1, csr)) {
            Ok(mid) => match step_spec(mid, encode_i(OPCODE_SYSTEM, rd2, FUNCT3_CSRRW, 0, csr)) {
                Ok(last) => last.csrs[csr as int] == 0 && last.regs[rd2 as int]
                    == s.regs[rs1 as int],
                Err(_) => false,
            },
            Err(_) => false,
        },
{
    let w1 = encode_i(OPCODE_SYSTEM, rd, FUNCT3_CSRRW, rs1, csr);
    let w2 = encode_i(OPCODE_SYSTEM, rd2, FUNCT3_CSRRW, 0, csr);
    assert(opcode_of(w1) == OPCODE_SYSTEM && funct3_of(w1) == FUNCT3_CSRRW && rd_of(w1) == rd
        && rs1_of(w1) == rs1 && csr_of(w1) == csr) by (bit_vector)
        requires
            w1 == encode_i(OPCODE_SYSTEM, rd, FUNCT3_CSRRW, rs1, csr),
            rd < 32,
            rs1 < 32,
            csr < 4096,
    ;
    assert(opcode_of(w2) == OPCODE_SYSTEM && funct3_of(w2) == FUNCT3_CSRRW && rd_of(w2) == rd2
        && rs1_of(w2) == 0 && csr_of(w2) == csr) by (bit_vector)
        requires
            w2 == encode_i(OPCODE_SYSTEM, rd2, FUNCT3_CSRRW, 0, csr),
            rd2 < 32,
            csr < 4096,
    ;
    lemma_decode_spec_wf(w1);
    lemma_decode_spec_wf(w2);
}

} // verus!
