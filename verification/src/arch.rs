//! One descriptor module per supported architecture. Each names, in
//! DWARF numbering, the registers the generic frame walker treats
//! specially, and the amount of private scratch space the unwinding
//! ABI reserves on that architecture.

pub mod aarch64;
pub mod mips;
pub mod riscv;
pub mod x86;
pub mod x86_64;
