//! A minimal instruction-set emulator: a flat memory carved into typed
//! regions, a fixed-width instruction codec, and a fetch-decode-execute loop
//! over a small register file.

pub mod cpu;
pub mod error;
pub mod hex;
pub mod instruction;
pub mod listing;
pub mod memory;
pub mod registers;
