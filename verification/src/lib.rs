//! An instruction-level emulator core for the MOS 6502: a register file, a
//! flat 64 KiB memory, the addressing-mode resolver, the flag-update policy
//! and the fetch-decode-execute loop, each with a machine-checked contract.

pub mod addressing;
pub mod cpu;
pub mod flags;
pub mod halting;
pub mod machine;
pub mod memory;
pub mod opcode;
pub mod theorems;
