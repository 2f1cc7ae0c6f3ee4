//! An 8-bit processor core: a flat 64 KiB address space, a small register
//! file with Zero and Negative flags, the load/reset protocol and a
//! fetch-decode-execute loop over a closed instruction subset.
pub mod cpu;
pub mod flags;
pub mod laws;
pub mod memory;
pub mod opcode;

pub use cpu::CPU;
pub use opcode::ExecError;
