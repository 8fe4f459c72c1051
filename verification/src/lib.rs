//! Emulation of the instruction set and execution semantics of the 6502
//! family of 8-bit processors (including its console-variant derivative).
//!
//! The crate models the processor as a state machine: a flat 64 KiB memory,
//! an 8-bit status register of named flags, a one-byte stack pointer into the
//! fixed stack page, an addressing-mode resolver, an immutable opcode table,
//! one transition function per mnemonic, and a fetch-decode-execute core.
//! Every component carries a contract relating the machine state after a call
//! to the state before it, phrased over the specification-level machine state
//! in [`state`].

pub mod cpu;
pub mod cpu_6502;
pub mod instructions;
pub mod memory;
pub mod mode;
pub mod opcodes;
pub mod state;
pub mod status;
