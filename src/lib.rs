//! A register-based bytecode interpreter for an eBPF-style instruction set,
//! with every memory access bounds-checked against the machine's own buffers.

pub mod fault;
pub mod insn;
pub mod alu;
pub mod memory;
pub mod machine;
pub mod vm;
pub mod laws;
