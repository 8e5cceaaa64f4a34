//! Architecture layer of a stack-unwinding runtime: per-architecture
//! descriptor tables naming the special-purpose registers, and the
//! register-file snapshot type the frame walker reads and writes.
//!
//! Register identifiers follow the DWARF numbering that `gimli` defines,
//! so call-frame information referring to register N can be applied
//! directly against slot N of a snapshot.
use vstd::prelude::*;

pub mod arch;
pub mod decimal;
pub mod unwinder;

verus! {

/// `gimli::Register` is the DWARF register number: a transparent
/// newtype over `u16`. Declaring it lets contracts speak of the
/// number itself.
#[verifier::external_type_specification]
pub struct ExRegister(gimli::Register);

} // verus!
