use vstd::prelude::*;

verus! {

/// Sign-extends the low `width` bits of `v` (all higher bits of `v` being zero) to 64 bits.
pub open spec fn sign_extend(v: u64, width: u64) -> u64 {
    if (v >> (width - 1)) & 1 == 1 {
        v | (0xffff_ffff_ffff_ffffu64 << width)
    } else {
        v
    }
}

/// The I-type immediate: `inst[31:20]`, sign-extended.
pub open spec fn imm_i(inst: u32) -> u64 {
    sign_extend((inst >> 20) as u64, 12)
}

/// The S-type immediate: `imm[11:5] = inst[31:25]`, `imm[4:0] = inst[11:7]`, sign-extended.
pub open spec fn imm_s(inst: u32) -> u64 {
    sign_extend((((inst >> 25) << 5) | ((inst >> 7) & 0x1f)) as u64, 12)
}

/// The B-type immediate: `imm[12] = inst[31]`, `imm[11] = inst[7]`,
/// `imm[10:5] = inst[30:25]`, `imm[4:1] = inst[11:8]`, `imm[0] = 0`, sign-extended.
pub open spec fn imm_b(inst: u32) -> u64 {
    sign_extend(
        (((inst >> 31) << 12) | (((inst >> 7) & 1) << 11) | (((inst >> 25) & 0x3f) << 5) | (((inst
            >> 8) & 0xf) << 1)) as u64,
        13,
    )
}

/// The U-type immediate: `imm[31:12] = inst[31:12]`, `imm[11:0] = 0`, sign-extended.
pub open spec fn imm_u(inst: u32) -> u64 {
    sign_extend((inst & 0xffff_f000) as u64, 32)
}

/// The J-type immediate: `imm[20] = inst[31]`, `imm[19:12] = inst[19:12]`,
/// `imm[11] = inst[20]`, `imm[10:1] = inst[30:21]`, `imm[0] = 0`, sign-extended.
pub open spec fn imm_j(inst: u32) -> u64 {
    sign_extend(
        (((inst >> 31) << 20) | (((inst >> 12) & 0xff) << 12) | (((inst >> 20) & 1) << 11) | (((inst
            >> 21) & 0x3ff) << 1)) as u64,
        21,
    )
}

/// Bits 6..0: the major opcode.
pub open spec fn opcode_of(inst: u32) -> u32 {
    inst & 0x7f
}

/// Bits 11..7: the destination register.
pub open spec fn rd_of(inst: u32) -> usize {
    ((inst >> 7) & 0x1f) as usize
}

/// Bits 19..15: the first source register.
pub open spec fn rs1_of(inst: u32) -> usize {
    ((inst >> 15) & 0x1f) as usize
}

/// Bits 24..20: the second source register.
pub open spec fn rs2_of(inst: u32) -> usize {
    ((inst >> 20) & 0x1f) as usize
}

/// Bits 14..12.
pub open spec fn funct3_of(inst: u32) -> u32 {
    (inst >> 12) & 0x7
}

/// Bits 31..25.
pub open spec fn funct7_of(inst: u32) -> u32 {
    inst >> 25
}

/// Bits 25..20: the shift amount of a 64-bit immediate shift.
pub open spec fn shamt_of(inst: u32) -> u64 {
    ((inst >> 20) & 0x3f) as u64
}

/// Bits 31..26: the part of the I-type immediate above a 64-bit shift amount.
pub open spec fn shamt_reserved_of(inst: u32) -> u32 {
    inst >> 26
}

/// Bits 31..20, unextended: the CSR address of a SYSTEM instruction.
pub open spec fn csr_of(inst: u32) -> usize {
    (inst >> 20) as usize
}

/// Bits 6..0: the major opcode.
pub fn get_opcode(inst: u32) -> (r: u32)
    ensures
        r == opcode_of(inst),
{
    inst & 0x7f
}

/// Bits 11..7: the destination register.
pub fn get_rd(inst: u32) -> (r: usize)
    ensures
        r == rd_of(inst),
        r < 32,
{
    let v = (inst >> 7) & 0x1f;
    assert(v < 32) by (bit_vector)
        requires
            v == (inst >> 7) & 0x1f,
    ;
    v as usize
}

/// Bits 19..15: the first source register.
pub fn get_rs1(inst: u32) -> (r: usize)
    ensures
        r == rs1_of(inst),
        r < 32,
{
    let v = (inst >> 15) & 0x1f;
    assert(v < 32) by (bit_vector)
        requires
            v == (inst >> 15) & 0x1f,
    ;
    v as usize
}

/// Bits 24..20: the second source register.
pub fn get_rs2(inst: u32) -> (r: usize)
    ensures
        r == rs2_of(inst),
        r < 32,
{
    let v = (inst >> 20) & 0x1f;
    assert(v < 32) by (bit_vector)
        requires
            v == (inst >> 20) & 0x1f,
    ;
    v as usize
}

/// Bits 14..12.
pub fn get_funct3(inst: u32) -> (r: u32)
    ensures
        r == funct3_of(inst),
{
    (inst >> 12) & 0x7
}

/// Bits 31..25.
pub fn get_funct7(inst: u32) -> (r: u32)
    ensures
        r == funct7_of(inst),
{
    inst >> 25
}

/// Bits 25..20: the 6-bit shift amount of a 64-bit immediate shift.
pub fn get_shamt(inst: u32) -> (r: u64)
    ensures
        r == shamt_of(inst),
        r < 64,
{
    let v = (inst >> 20) & 0x3f;
    assert(v < 64) by (bit_vector)
        requires
            v == (inst >> 20) & 0x3f,
    ;
    v as u64
}

/// Bits 31..26: tells logical and arithmetic immediate shifts apart.
pub fn get_shamt_reserved(inst: u32) -> (r: u32)
    ensures
        r == shamt_reserved_of(inst),
{
    inst >> 26
}

/// The I-type immediate, sign-extended to 64 bits.
pub fn get_imm_type_i(inst: u32) -> (r: u64)
    ensures
        r == imm_i(inst),
{
    let r = ((inst as i32 as i64) >> 20) as u64;
    assert(r == imm_i(inst)) by (bit_vector)
        requires
            r == ((inst as i32 as i64) >> 20) as u64,
    ;
    r
}

/// The U-type immediate, sign-extended to 64 bits.
pub fn get_imm_type_u(inst: u32) -> (r: u64)
    ensures
        r == imm_u(inst),
{
    let r = (inst & 0xffff_f000) as i32 as i64 as u64;
    assert(r == imm_u(inst)) by (bit_vector)
        requires
            r == (inst & 0xffff_f000) as i32 as i64 as u64,
    ;
    r
}

/// The J-type immediate, sign-extended to 64 bits.
pub fn get_imm_type_j(inst: u32) -> (r: u64)
    ensures
        r == imm_j(inst),
{
    // imm[20], replicated into every higher bit
    let v1: i64 = (inst & 0x8000_0000) as i32 as i64 >> 11;
    // imm[19:12]
    let v2: u32 = inst & 0xff000;
    // imm[11]
    let v3: u32 = (inst >> 9) & 0x800;
    // imm[10:1]
    let v4: u32 = (inst >> 20) & 0x7fe;
    let r = v1 as u64 | (v2 | v3 | v4) as u64;
    assert(r == imm_j(inst)) by (bit_vector)
        requires
            v1 == (inst & 0x8000_0000) as i32 as i64 >> 11,
            v2 == inst & 0xff000,
            v3 == (inst >> 9) & 0x800,
            v4 == (inst >> 20) & 0x7fe,
            r == v1 as u64 | (v2 | v3 | v4) as u64,
    ;
    r
}

/// The B-type immediate, sign-extended to 64 bits.
pub fn get_imm_type_b(inst: u32) -> (r: u64)
    ensures
        r == imm_b(inst),
{
    // imm[12], replicated into every higher bit
    let v1: i64 = (inst & 0x8000_0000) as i32 as i64 >> 19;
    // imm[11]
    let v2: u32 = (inst & 0x80) << 4;
    // imm[10:5]
    let v3: u32 = (inst >> 20) & 0x7e0;
    // imm[4:1]
    let v4: u32 = (inst >> 7) & 0x1e;
    let r = v1 as u64 | (v2 | v3 | v4) as u64;
    assert(r == imm_b(inst)) by (bit_vector)
        requires
            v1 == (inst & 0x8000_0000) as i32 as i64 >> 19,
            v2 == (inst & 0x80) << 4,
            v3 == (inst >> 20) & 0x7e0,
            v4 == (inst >> 7) & 0x1e,
            r == v1 as u64 | (v2 | v3 | v4) as u64,
    ;
    r
}

/// The S-type immediate, sign-extended to 64 bits.
pub fn get_imm_type_s(inst: u32) -> (r: u64)
    ensures
        r == imm_s(inst),
{
    // imm[11:5], sign-extended
    let v1: i64 = (inst & 0xfe00_0000) as i32 as i64 >> 20;
    // imm[4:0]
    let v2: u32 = (inst >> 7) & 0x1f;
    let r = v1 as u64 | v2 as u64;
    assert(r == imm_s(inst)) by (bit_vector)
        requires
            v1 == (inst & 0xfe00_0000) as i32 as i64 >> 20,
            v2 == (inst >> 7) & 0x1f,
            r == v1 as u64 | v2 as u64,
    ;
    r
}

} // verus!
