//! A model of a 16-bit segmented processor of the 8086 family: memory,
//! register file, instruction decoder and execution engine.

pub mod mem;
pub mod regs;
pub mod cpu;
pub mod alu;
pub mod arith;
pub mod data;
pub mod flow;
pub mod strings;
pub mod shift;
pub mod bcd;
pub mod muldiv;
pub mod decode;
pub mod fetch;
pub mod execute;
pub mod load;
pub mod laws;
