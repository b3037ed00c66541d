//! A CHIP-8 virtual machine: machine state, instruction decoding, execution and display.
pub mod display;
pub mod instruction;
pub mod laws;
pub mod machine;
pub mod semantics;
