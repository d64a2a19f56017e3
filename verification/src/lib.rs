//! An emulator core for a simple 32-bit register machine: eight 32-bit
//! registers, a segmented memory, and a fourteen-opcode instruction set.
//! Every state change is specified against a mathematical model of the
//! machine and proved; the surrounding byte I/O lives outside this crate.

pub mod codec;
pub mod exec;
pub mod machine;
pub mod memops;
pub mod regops;
