use vstd::prelude::*;

use super::dram::{
    Dram, dram_image, lemma_le_value_write_le, le_value, low_bits, valid_size, write_le,
};
use super::exception::Exception;
use super::{DRAM_BASE, DRAM_END, DRAM_SIZE};

verus! {

/// Whether `addr` names a DRAM byte.
pub open spec fn in_dram(addr: u64) -> bool {
    DRAM_BASE <= addr <= DRAM_END
}

/// Whether an access of `size` bits at `addr` runs past the end of DRAM.
/// Such an access first touches a missing byte at `DRAM_END + 1`.
pub open spec fn straddles_end(addr: u64, size: u64) -> bool {
    addr + size / 8 - 1 > DRAM_END
}

/// What a `size`-bit load at `addr` gives, on a memory whose first byte sits at `DRAM_BASE`.
pub open spec fn load_spec(mem: Seq<u8>, addr: u64, size: u64) -> Result<u64, Exception> {
    if !in_dram(addr) {
        Err(Exception::LoadAccessFault { address: addr })
    } else if straddles_end(addr, size) {
        Err(Exception::LoadAccessFault { address: (DRAM_END + 1) as u64 })
    } else {
        Ok(le_value(mem, addr - DRAM_BASE, (size / 8) as nat) as u64)
    }
}

/// The memory after a `size`-bit store of `value` at `addr`, or the fault it raises.
pub open spec fn store_spec(mem: Seq<u8>, addr: u64, size: u64, value: u64) -> Result<
    Seq<u8>,
    Exception,
> {
    if !in_dram(addr) {
        Err(Exception::StoreAMOAccessFault { address: addr })
    } else if straddles_end(addr, size) {
        Err(Exception::StoreAMOAccessFault { address: (DRAM_END + 1) as u64 })
    } else {
        Ok(write_le(mem, addr - DRAM_BASE, (size / 8) as nat, value))
    }
}

/// A load right after a store of the same width at the same address, the whole access lying
/// in DRAM, returns the low `size` bits of the stored value.
pub proof fn lemma_load_after_store(mem: Seq<u8>, addr: u64, size: u64, value: u64)
    requires
        mem.len() == DRAM_SIZE,
        valid_size(size),
        DRAM_BASE <= addr,
        addr + size / 8 - 1 <= DRAM_END,
    ensures
        match store_spec(mem, addr, size, value) {
            Ok(stored) => load_spec(stored, addr, size) == Ok::<u64, Exception>(
                low_bits(value, size) as u64,
            ),
            Err(_) => false,
        },
{
    lemma_le_value_write_le(mem, addr - DRAM_BASE, (size / 8) as nat, value);
}

/// A load wider than one byte at `DRAM_END` runs past the end of DRAM: it faults at the first
/// address that has no byte, `DRAM_END + 1`.
pub proof fn lemma_load_straddling_end(mem: Seq<u8>, size: u64)
    requires
        valid_size(size),
        size > 8,
    ensures
        load_spec(mem, DRAM_END, size) == Err::<u64, Exception>(
            Exception::LoadAccessFault { address: (DRAM_END + 1) as u64 },
        ),
{
}

/// Routes loads and stores by address: DRAM, or an access fault.
pub struct Bus {
    dram: Dram,
}

impl View for Bus {
    type V = Seq<u8>;

    /// The DRAM bytes; index 0 is guest address `DRAM_BASE`.
    closed spec fn view(&self) -> Seq<u8> {
        self.dram@
    }
}

impl Bus {
    /// The bus always fronts a full-size DRAM.
    pub open spec fn wf(&self) -> bool {
        self@.len() == DRAM_SIZE
    }

    /// A bus over zeroed DRAM holding `code` at `DRAM_BASE`.
    pub fn new(code: Vec<u8>) -> (r: Bus)
        ensures
            r.wf(),
            r@ == dram_image(code@),
    {
        Bus { dram: Dram::new(code) }
    }

    /// Reads `size` bits at `addr`, little-endian, zero-extended to 64 bits.
    pub fn load(&self, addr: u64, size: u64) -> (r: Result<u64, Exception>)
        requires
            self.wf(),
            valid_size(size),
        ensures
            r == load_spec(self@, addr, size),
    {
        if addr < DRAM_BASE || addr > DRAM_END {
            Err(Exception::LoadAccessFault { address: addr })
        } else if addr - DRAM_BASE + size / 8 > DRAM_SIZE {
            Err(Exception::LoadAccessFault { address: DRAM_END + 1 })
        } else {
            Ok(self.dram.load(addr, size))
        }
    }

    /// Writes the low `size` bits of `value` at `addr`, little-endian.
    /// On a fault nothing is written.
    pub fn store(&mut self, addr: u64, size: u64, value: u64) -> (r: Result<(), Exception>)
        requires
            old(self).wf(),
            valid_size(size),
        ensures
            final(self).wf(),
            match store_spec(old(self)@, addr, size, value) {
                Ok(mem) => r == Ok::<(), Exception>(()) && final(self)@ == mem,
                Err(e) => r == Err::<(), Exception>(e) && final(self)@ == old(self)@,
            },
    {
        if addr < DRAM_BASE || addr > DRAM_END {
            Err(Exception::StoreAMOAccessFault { address: addr })
        } else if addr - DRAM_BASE + size / 8 > DRAM_SIZE {
            Err(Exception::StoreAMOAccessFault { address: DRAM_END + 1 })
        } else {
            self.dram.store(addr, size, value);
            Ok(())
        }
    }
}

} // verus!
