//! Register-file snapshot types, one module per architecture.

pub mod mips64;
