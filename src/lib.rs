//! An emulator core for the NES variant of the MOS 6502 processor.
use vstd::prelude::*;

pub mod cpu;
pub mod debugger;
pub mod laws;
pub mod machine;
pub mod mapper;
pub mod memory;
pub mod opcodes;
pub mod rom;
pub mod status;
pub mod trace;

verus! {

} // verus!
