use vstd::prelude::*;

verus! {

/// The architectural events that end execution.
#[derive(Debug, Clone, Copy, PartialEq, Eq, Structural)]
pub enum Exception {
    /// A load or an instruction fetch touched an address outside DRAM.
    LoadAccessFault { address: u64 },
    /// A store touched an address outside DRAM.
    StoreAMOAccessFault { address: u64 },
    /// `ecall` was executed.
    EnvironmentCall,
    /// `ebreak` was executed.
    Breakpoint,
    /// The instruction word is not one this interpreter implements.
    IllegalInstruction,
}

} // verus!
