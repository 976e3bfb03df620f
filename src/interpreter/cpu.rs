use vstd::prelude::*;

use super::bus::{Bus, load_spec, store_spec};
use super::csr::{CSR_COUNT, Csr};
use super::dram::{dram_image, valid_size};
use super::exception::Exception;
use super::{DRAM_BASE, DRAM_END};

verus! {

/// The architectural state as a mathematical value.
pub struct MachineState {
    /// The 32 general-purpose registers.
    pub regs: Seq<u64>,
    pub pc: u64,
    /// DRAM bytes; index 0 is guest address `DRAM_BASE`.
    pub mem: Seq<u8>,
    /// The 4096 control-and-status registers.
    pub csrs: Seq<u64>,
}

impl MachineState {
    /// The state after writing `value` to register `rd`; writes to `x0` are discarded.
    pub open spec fn write_reg(self, rd: usize, value: u64) -> MachineState {
        if rd == 0 {
            self
        } else {
            MachineState { regs: self.regs.update(rd as int, value), ..self }
        }
    }

    /// The state with the program counter set to `pc`.
    pub open spec fn with_pc(self, pc: u64) -> MachineState {
        MachineState { pc, ..self }
    }

    /// The state with `x0` forced to zero.
    pub open spec fn with_x0_cleared(self) -> MachineState {
        MachineState { regs: self.regs.update(0, 0u64), ..self }
    }
}

/// The state right after reset, for a given image: `sp` holds the last DRAM address, the
/// program counter holds `DRAM_BASE`, all other registers and CSRs are zero.
pub open spec fn initial_state(code: Seq<u8>) -> MachineState {
    MachineState {
        regs: Seq::new(32, |i: int| if i == 2 { DRAM_END } else { 0u64 }),
        pc: DRAM_BASE,
        mem: dram_image(code),
        csrs: Seq::new(CSR_COUNT as nat, |i: int| 0u64),
    }
}

/// The result of fetching the instruction word at the program counter.
pub open spec fn fetch_spec(s: MachineState) -> Result<u32, Exception> {
    match load_spec(s.mem, s.pc, 32) {
        Ok(word) => Ok(word as u32),
        Err(e) => Err(e),
    }
}

/// A RISC-V hart: registers, program counter, memory bus and CSR file.
pub struct Cpu {
    pub regs: [u64; 32],
    pub pc: u64,
    pub bus: Bus,
    pub csr: Csr,
}

impl View for Cpu {
    type V = MachineState;

    open spec fn view(&self) -> MachineState {
        MachineState { regs: self.regs@, pc: self.pc, mem: self.bus@, csrs: self.csr@ }
    }
}

impl Cpu {
    pub open spec fn wf(&self) -> bool {
        self.bus.wf()
    }

    /// A hart at reset with `code` loaded at `DRAM_BASE`.
    pub fn new(code: Vec<u8>) -> (r: Cpu)
        ensures
            r.wf(),
            r@ == initial_state(code@),
    {
        let mut regs = [0u64; 32];
        regs[2] = DRAM_END;
        let r = Cpu { regs, pc: DRAM_BASE, bus: Bus::new(code), csr: Csr::new() };
        assert(r.regs@ =~= initial_state(code@).regs);
        r
    }

    /// Sets register `reg` to `value`. Writes to `x0` are discarded.
    pub fn write_reg(&mut self, reg: usize, value: u64)
        requires
            reg < 32,
        ensures
            final(self)@ == old(self)@.write_reg(reg, value),
            final(self).bus == old(self).bus,
    {
        if reg != 0 {
            self.regs[reg] = value;
        }
        assert(self.regs@ =~= old(self)@.write_reg(reg, value).regs);
    }

    /// The value of register `reg`.
    pub fn read_reg(&self, reg: usize) -> (r: u64)
        requires
            reg < 32,
        ensures
            r == self.regs@[reg as int],
    {
        self.regs[reg]
    }

    /// A `size`-bit load through the bus.
    pub fn load(&mut self, addr: u64, size: u64) -> (r: Result<u64, Exception>)
        requires
            old(self).wf(),
            valid_size(size),
        ensures
            *final(self) == *old(self),
            r == load_spec(old(self)@.mem, addr, size),
    {
        self.bus.load(addr, size)
    }

    /// A `size`-bit store through the bus; nothing but memory changes.
    pub fn store(&mut self, addr: u64, size: u64, value: u64) -> (r: Result<(), Exception>)
        requires
            old(self).wf(),
            valid_size(size),
        ensures
            final(self).wf(),
            match store_spec(old(self)@.mem, addr, size, value) {
                Ok(mem) => r == Ok::<(), Exception>(()) && final(self)@ == (MachineState {
                    mem,
                    ..old(self)@
                }),
                Err(e) => r == Err::<(), Exception>(e) && final(self)@ == old(self)@,
            },
    {
        self.bus.store(addr, size, value)
    }

    /// Fetches the 32-bit instruction word at the program counter.
    pub fn instructure_fetch(&mut self) -> (r: Result<u32, Exception>)
        requires
            old(self).wf(),
        ensures
            *final(self) == *old(self),
            r == fetch_spec(old(self)@),
    {
        match self.bus.load(self.pc, 32) {
            Ok(word) => Ok(word as u32),
            Err(e) => Err(e),
        }
    }
}

} // verus!
