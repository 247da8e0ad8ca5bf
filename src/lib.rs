//! An interpreter for the RISC-V base integer instruction sets RV32I and
//! RV64I: a decoder, per-mnemonic kernels written once over the machine word,
//! per-format executors, and a dispatcher that steps one hart.
pub mod decode;
pub mod emulator;
pub mod error;
pub mod instructions;
pub mod isa;
pub mod libelf;
pub mod mem;
pub mod num;
pub mod ops;
pub mod registers;
pub mod uint;
