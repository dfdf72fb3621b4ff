//! A CHIP-8 virtual machine: an instruction decoder and an execution engine
//! over a fixed-size machine state.
pub mod cpu;
pub mod laws;
pub mod machine;
pub mod ops;
