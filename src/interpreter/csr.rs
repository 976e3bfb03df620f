use vstd::prelude::*;

verus! {

/// Number of control-and-status registers: one per 12-bit address.
pub const CSR_COUNT: usize = 4096;

/// Machine status register.
pub const MSTATUS: usize = 0x300;

/// Machine trap-vector base address.
pub const MTVEC: usize = 0x305;

/// Machine exception program counter.
pub const MEPC: usize = 0x341;

/// Supervisor status register.
pub const SSTATUS: usize = 0x100;

/// Supervisor trap-vector base address.
pub const STVEC: usize = 0x105;

/// Supervisor exception program counter.
pub const SEPC: usize = 0x141;

/// The control-and-status register file: plain storage, no side effects.
pub struct Csr {
    pub csrs: [u64; CSR_COUNT],
}

impl View for Csr {
    type V = Seq<u64>;

    open spec fn view(&self) -> Seq<u64> {
        self.csrs@
    }
}

impl Csr {
    /// All registers zero.
    pub fn new() -> (r: Csr)
        ensures
            r@ == Seq::new(CSR_COUNT as nat, |i: int| 0u64),
    {
        let r = Csr { csrs: [0u64; CSR_COUNT] };
        assert(r@ =~= Seq::new(CSR_COUNT as nat, |i: int| 0u64));
        r
    }

    /// The value of register `index`.
    pub fn load(&self, index: usize) -> (r: u64)
        requires
            index < CSR_COUNT,
        ensures
            r == self@[index as int],
    {
        self.csrs[index]
    }

    /// Sets register `index` to `value`.
    pub fn store(&mut self, index: usize, value: u64)
        requires
            index < CSR_COUNT,
        ensures
            final(self)@ == old(self)@.update(index as int, value),
    {
        self.csrs[index] = value;
    }
}

} // verus!
