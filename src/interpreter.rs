use vstd::prelude::*;

pub mod bus;
pub mod cpu;
pub mod csr;
pub mod decode;
pub mod dram;
pub mod encoding;
pub mod exception;
pub mod execute;
pub mod instruction;

verus! {

/// Size of the guest DRAM in bytes (128 MiB).
pub const DRAM_SIZE: u64 = 1024 * 1024 * 128;

/// Guest address of the first DRAM byte; the image is loaded here.
pub const DRAM_BASE: u64 = 0x8000_0000;

/// Guest address of the last DRAM byte.
pub const DRAM_END: u64 = DRAM_BASE + DRAM_SIZE - 1;

} // verus!
