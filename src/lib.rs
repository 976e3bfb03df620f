use vstd::prelude::*;

pub mod interpreter;

use interpreter::cpu::{Cpu, initial_state};
use interpreter::exception::Exception;
use interpreter::execute::{MAX_CYCLES, run_spec};

verus! {

/// Loads `code` at `DRAM_BASE` into a fresh hart and runs it until it halts. Returns the hart
/// and the exception that halted it (`None` only if `MAX_CYCLES` instructions all completed).
pub fn start(code: Vec<u8>) -> (r: (Cpu, Option<Exception>))
    ensures
        r.0.wf(),
        (r.0@, r.1) == run_spec(initial_state(code@), MAX_CYCLES as nat),
{
    let mut cpu = Cpu::new(code);
    let halt = cpu.execute();
    (cpu, halt)
}

} // verus!
